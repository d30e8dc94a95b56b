use uefi_raw::Guid;
use uefi_ui::keyboard_layout::{
    get_known_layout_name, guid_bytes_from_raw, layout_display_name, parse_layout_descriptor,
    read_utf16le_string, KeyboardLayout, KeyboardLayoutPickerFocus, KeyboardLayoutPickerState,
};
use uefi_ui::png::{decode_png_to_rgba, png_dimensions_and_size, PngError};
use uefi_ui::demo::scene::decode_demo_png;
use uefi_ui::theme::{ThemeMode, ThemeSpacing};

#[test]
fn test_keyboard_layout_picker_state() {
    let layouts = vec![
        KeyboardLayout {
            guid: Guid::ZERO,
            descriptor: String::from("US English"),
        },
        KeyboardLayout {
            guid: Guid::ZERO,
            descriptor: String::from("Danish"),
        },
    ];

    let mut state = KeyboardLayoutPickerState::new(layouts);
    assert_eq!(state.len(), 2);
    assert!(!state.is_empty());
    assert_eq!(state.selected, 0);

    assert_eq!(state.selected_layout().unwrap().descriptor, "US English");

    state.selected = 1;
    assert_eq!(state.selected_layout().unwrap().descriptor, "Danish");
    state.selected = 2;
    assert!(state.selected_layout().is_none());
}

#[test]
fn test_guid_null() {
    let guid = Guid::ZERO;
    assert_eq!(guid.to_bytes(), [0u8; 16]);
    assert!(get_known_layout_name(&guid).is_none());
}

#[test]
fn test_utf16le_string() {
    let data = b"T\x00e\x00s\x00t\x00\x00\x00";
    let (string, len) = read_utf16le_string(data);
    assert_eq!(string, "Test");
    assert_eq!(len, 10);

    let data = b"\x00\x00";
    let (string, len) = read_utf16le_string(data);
    assert_eq!(string, "");
    assert_eq!(len, 2);
}

#[test]
fn utf16le_skips_surrogates_and_c1_controls() {
    let data = [0x41, 0x00, 0x00, 0xD8, 0x85, 0x00, 0xE9, 0x00, 0x42];
    let (s, len) = read_utf16le_string(&data);
    assert_eq!(s, "Aé");
    assert_eq!(len, 8);
}

#[test]
fn picker_focus_cycles() {
    let f = KeyboardLayoutPickerFocus::List;
    assert_eq!(f.next(), KeyboardLayoutPickerFocus::OkButton);
    assert_eq!(f.next().next().next(), f);
    assert_eq!(f.prev(), KeyboardLayoutPickerFocus::CancelButton);
    assert_eq!(f.next().prev(), f);
    let mut st = KeyboardLayoutPickerState::default();
    assert!(st.list_focused());
    st.focus = KeyboardLayoutPickerFocus::CancelButton;
    assert!(st.cancel_focused() && !st.ok_focused());
}

#[test]
fn layout_record_descriptor() {
    let mut buf = vec![0u8; 24];
    buf[18] = 24;
    buf.extend_from_slice(&[b'D', 0, b'K', 0, 0, 0]);
    assert_eq!(parse_layout_descriptor(&buf), Some(String::from("DK")));
    buf[18] = 200;
    assert_eq!(parse_layout_descriptor(&buf), None);
    assert_eq!(parse_layout_descriptor(&buf[..20]), None);
    let mut empty = vec![0u8; 26];
    empty[18] = 24;
    assert_eq!(parse_layout_descriptor(&empty), None);
}

#[test]
fn display_name_falls_back_to_guid_hex() {
    let mut g = [0u8; 16];
    g[0] = 0xef;
    g[1] = 0xbe;
    g[2] = 0xad;
    g[3] = 0x0e;
    assert_eq!(layout_display_name(None, &g), "Layout 0x0eadbeef");
    assert_eq!(layout_display_name(Some(String::new()), &g), "Layout 0x0eadbeef");
    assert_eq!(layout_display_name(Some(String::from("Danish")), &g), "Danish");
    assert_eq!(format!("Layout {:#010x}", u32::from_le_bytes([g[0], g[1], g[2], g[3]])), "Layout 0x0eadbeef");
}

#[test]
fn guid_bytes_need_sixteen() {
    let raw: Vec<u8> = (0..16).collect();
    assert_eq!(guid_bytes_from_raw(&raw).map(|b| b[15]), Some(15));
    assert!(guid_bytes_from_raw(&raw[..15]).is_none());
}

const ONE_BY_ONE_RGBA: &[u8] = &[
    0x89, 0x50, 0x4E, 0x47, 0x0D, 0x0A, 0x1A, 0x0A, 0x00, 0x00, 0x00, 0x0D, 0x49, 0x48, 0x44, 0x52,
    0x00, 0x00, 0x00, 0x01, 0x00, 0x00, 0x00, 0x01, 0x08, 0x06, 0x00, 0x00, 0x00, 0x1F, 0x15, 0xC4,
    0x89, 0x00, 0x00, 0x00, 0x0A, 0x49, 0x44, 0x41, 0x54, 0x78, 0x9C, 0x63, 0x00, 0x01, 0x00, 0x00,
    0x05, 0x00, 0x01, 0x0D, 0x0A, 0x2D, 0xB4, 0x00, 0x00, 0x00, 0x00, 0x49, 0x45, 0x4E, 0x44, 0xAE,
    0x42, 0x60, 0x82,
];

#[test]
fn s7_decode_tiny_png_rgba() {
    let (w, h, need) = png_dimensions_and_size(ONE_BY_ONE_RGBA).expect("header");
    assert_eq!((w, h), (1, 1));
    let mut buf = vec![0u8; need];
    let img = decode_png_to_rgba(ONE_BY_ONE_RGBA, &mut buf).expect("decode");
    assert_eq!(img.width(), 1);
    assert_eq!(img.height(), 1);
    assert!(img.pixels().len() >= 4);
}

#[test]
fn demo_png_decodes_or_rejects() {
    let (buf, w, h) = decode_demo_png(ONE_BY_ONE_RGBA).expect("decode");
    assert_eq!((w, h), (1, 1));
    assert!(buf.len() >= 4);
    assert!(decode_demo_png(b"not a png").is_none());
    // The pixels are what decoding the bytes into a zero-filled buffer yields.
    let (_, _, need) = png_dimensions_and_size(ONE_BY_ONE_RGBA).expect("header");
    let mut zeroed = vec![0u8; need];
    let img = decode_png_to_rgba(ONE_BY_ONE_RGBA, &mut zeroed).expect("decode");
    assert_eq!(buf.as_slice(), img.pixels());
    assert_eq!(buf.len(), 4);
    assert!(png_dimensions_and_size(b"").is_err());
}

#[test]
fn theme_presets() {
    assert_eq!(ThemeMode::Light.toggled(), ThemeMode::Dark);
    assert_eq!(ThemeMode::Dark.toggled(), ThemeMode::Light);
    assert_eq!(ThemeMode::BedrockClassic.toggled(), ThemeMode::Light);
    let s = ThemeSpacing::bedrock_sharp();
    assert_eq!((s.xs, s.sm, s.md, s.lg, s.radius_sm, s.radius_md), (2, 4, 8, 12, 0, 0));
    let d = ThemeSpacing::default_theme();
    assert_eq!((d.xs, d.radius_md), (4, 8));
}

#[test]
fn png_errors_name_their_kind() {
    assert_eq!(png_dimensions_and_size(b"not a png"), Err(PngError::NotPng));
    let mut truncated = ONE_BY_ONE_RGBA.to_vec();
    truncated.truncate(20);
    assert_eq!(png_dimensions_and_size(&truncated), Err(PngError::UnexpectedEof));
    let mut small = [0u8; 2];
    assert!(matches!(decode_png_to_rgba(ONE_BY_ONE_RGBA, &mut small), Err(PngError::BufferTooSmall)));
    let mut zero_width = ONE_BY_ONE_RGBA.to_vec();
    zero_width[19] = 0;
    assert_eq!(png_dimensions_and_size(&zero_width), Err(PngError::BadIhdr));
}

#[test]
fn picker_reload_resets_selection_and_keeps_focus() {
    let layout = |name: &str| KeyboardLayout { guid: Guid::ZERO, descriptor: String::from(name) };
    let mut st = KeyboardLayoutPickerState::new(vec![layout("A"), layout("B"), layout("C")]);
    st.selected = 2;
    st.scroll_top = 1;
    st.focus = KeyboardLayoutPickerFocus::OkButton;
    st.reload_with(vec![layout("D")]);
    assert_eq!(st.len(), 1);
    assert_eq!(st.selected, 0);
    assert_eq!(st.scroll_top, 0);
    assert_eq!(st.focus, KeyboardLayoutPickerFocus::OkButton);
    assert_eq!(st.selected_layout().map(|l| l.descriptor.as_str()), Some("D"));
}
