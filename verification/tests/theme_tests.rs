use uefi_ui::framebuffer::Rgb;
use uefi_ui::theme::{ThemeColors, ThemeMode, ThemeSpacing};

#[test]
fn dark_light_differ() {
    assert_ne!(ThemeColors::dark().background, ThemeColors::light().background);
}

#[test]
fn bedrock_classic_teal_desktop() {
    let c = ThemeColors::bedrock_classic();
    assert_eq!(c.background, Rgb::new(0x00, 0x80, 0x80));
}

#[test]
fn classic_palette_has_gray_face_and_navy_highlight() {
    let c = ThemeColors::bedrock_classic();
    assert_eq!(c.surface, Rgb::new(0xc6, 0xc6, 0xc6));
    assert_eq!(c.selection_bg, Rgb::new(0x06, 0x00, 0x84));
    assert_eq!(c.accent, Rgb::new(0x06, 0x00, 0x84));
    assert_eq!(c.tooltip_bg, Rgb::new(0xfe, 0xfb, 0xcc));
}

#[test]
fn palette_for_mode_matches_named_palettes() {
    assert_eq!(ThemeColors::for_mode(ThemeMode::Light), ThemeColors::light());
    assert_eq!(ThemeColors::for_mode(ThemeMode::Dark), ThemeColors::dark());
    assert_eq!(ThemeColors::for_mode(ThemeMode::BedrockClassic), ThemeColors::bedrock_classic());
}

#[test]
fn spacing_for_mode() {
    assert_eq!(ThemeSpacing::for_mode(ThemeMode::BedrockClassic), ThemeSpacing::bedrock_sharp());
    assert_eq!(ThemeSpacing::for_mode(ThemeMode::Light), ThemeSpacing::default_theme());
    assert_eq!(ThemeSpacing::bedrock_sharp().radius_md, 0);
}

#[test]
fn toggling_twice_returns_to_light_or_dark() {
    assert_eq!(ThemeMode::Light.toggled(), ThemeMode::Dark);
    assert_eq!(ThemeMode::Light.toggled().toggled(), ThemeMode::Light);
    assert_eq!(ThemeMode::Dark.toggled().toggled(), ThemeMode::Dark);
    assert_eq!(ThemeMode::BedrockClassic.toggled(), ThemeMode::Light);
    assert_eq!(ThemeMode::BedrockClassic.toggled().toggled(), ThemeMode::Dark);
}
