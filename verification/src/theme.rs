//! Theme presets: the visual style mode, the color palettes and the spacing scales.
//! Font sizes (fractional point sizes) are assembled by the front end around these.

use vstd::prelude::*;
use crate::framebuffer::Rgb;

verus! {

/// Visual style preset.
#[derive(Debug, Clone, Copy, PartialEq, Eq, Structural)]
pub enum ThemeMode {
    Light,
    Dark,
    /// Teal desktop with gray 3D chrome (classic style).
    BedrockClassic,
}

/// The mode that toggling switches to: Light and Dark swap; the classic style
/// goes to Light.
pub open spec fn toggled_mode(m: ThemeMode) -> ThemeMode {
    match m {
        ThemeMode::Light => ThemeMode::Dark,
        ThemeMode::Dark => ThemeMode::Light,
        ThemeMode::BedrockClassic => ThemeMode::Light,
    }
}

/// Toggling twice comes back to Light or Dark, and from the classic style it
/// lands on Dark: after one toggle the style is always in the light/dark pair.
pub proof fn lemma_toggle_twice(m: ThemeMode)
    ensures
        toggled_mode(m) != ThemeMode::BedrockClassic,
        m != ThemeMode::BedrockClassic ==> toggled_mode(toggled_mode(m)) == m,
        m == ThemeMode::BedrockClassic ==> toggled_mode(toggled_mode(m)) == ThemeMode::Dark,
{
}

impl ThemeMode {
    /// The mode that toggling switches to.
    pub fn toggled(self) -> (r: ThemeMode)
        ensures
            r == toggled_mode(self),
    {
        match self {
            ThemeMode::Light => ThemeMode::Dark,
            ThemeMode::Dark => ThemeMode::Light,
            ThemeMode::BedrockClassic => ThemeMode::Light,
        }
    }
}

/// Gaps and corner radii (px). Retro styles use radius 0 (sharp corners).
#[derive(Debug, Clone, Copy, PartialEq, Eq, Structural)]
pub struct ThemeSpacing {
    pub xs: u32,
    pub sm: u32,
    pub md: u32,
    pub lg: u32,
    pub radius_sm: u32,
    pub radius_md: u32,
}

impl ThemeSpacing {
    /// Default spacing with rounded corners.
    pub fn default_theme() -> (r: Self)
        ensures
            r == (ThemeSpacing { xs: 4, sm: 8, md: 12, lg: 20, radius_sm: 4, radius_md: 8 }),
    {
        ThemeSpacing { xs: 4, sm: 8, md: 12, lg: 20, radius_sm: 4, radius_md: 8 }
    }

    /// Sharp corners and tight padding (classic UI density).
    pub fn bedrock_sharp() -> (r: Self)
        ensures
            r == (ThemeSpacing { xs: 2, sm: 4, md: 8, lg: 12, radius_sm: 0, radius_md: 0 }),
    {
        ThemeSpacing { xs: 2, sm: 4, md: 8, lg: 12, radius_sm: 0, radius_md: 0 }
    }
}


/// Semantic palette (8 bits per channel).
#[derive(Debug, Clone, Copy, PartialEq, Eq, Structural)]
pub struct ThemeColors {
    pub background: Rgb,
    /// Panel / button face (`material` in Bedrock).
    pub surface: Rgb,
    pub surface_alt: Rgb,
    /// Input field / canvas white background.
    pub canvas: Rgb,
    /// Menu / list item hover + text selection background.
    pub selection_bg: Rgb,
    pub text: Rgb,
    pub text_secondary: Rgb,
    pub text_disabled: Rgb,
    /// Text on saturated UI (active title bar, primary buttons).
    pub caption_on_accent: Rgb,
    /// Active title bar / accent fill.
    pub accent: Rgb,
    pub accent_hover: Rgb,
    /// Inactive title bar background.
    pub header_inactive_bg: Rgb,
    /// Inactive title bar text.
    pub header_inactive_text: Rgb,
    pub border: Rgb,
    pub border_focus: Rgb,
    pub danger: Rgb,
    pub success: Rgb,
    pub overlay: Rgb,
    pub popover_bg: Rgb,
    /// Tooltip background (cream yellow).
    pub tooltip_bg: Rgb,
    /// Secondary focus ring color (yellow, used for Select focused state).
    pub focus_secondary: Rgb,
    pub graph_line: Rgb,
    pub graph_fill: Rgb,
    pub progress_track: Rgb,
    pub progress_fill: Rgb,
}

/// The light palette: near-white surfaces, dark text, blue accent.
pub open spec fn light_colors() -> ThemeColors {
    ThemeColors {
        background: Rgb { r: 0xf5, g: 0xf5, b: 0xf7 },
        surface: Rgb { r: 0xff, g: 0xff, b: 0xff },
        surface_alt: Rgb { r: 0xee, g: 0xee, b: 0xf0 },
        canvas: Rgb { r: 0xff, g: 0xff, b: 0xff },
        selection_bg: Rgb { r: 0xb4, g: 0xd5, b: 0xfe },
        text: Rgb { r: 0x1a, g: 0x1a, b: 0x1e },
        text_secondary: Rgb { r: 0x55, g: 0x55, b: 0x5f },
        text_disabled: Rgb { r: 0xa8, g: 0xa8, b: 0xb0 },
        caption_on_accent: Rgb { r: 0xff, g: 0xff, b: 0xff },
        accent: Rgb { r: 0x25, g: 0x63, b: 0xeb },
        accent_hover: Rgb { r: 0x1d, g: 0x4e, b: 0xd8 },
        header_inactive_bg: Rgb { r: 0x9e, g: 0x9e, b: 0x9e },
        header_inactive_text: Rgb { r: 0xe0, g: 0xe0, b: 0xe0 },
        border: Rgb { r: 0xd1, g: 0xd5, b: 0xdb },
        border_focus: Rgb { r: 0x25, g: 0x63, b: 0xeb },
        danger: Rgb { r: 0xdc, g: 0x26, b: 0x26 },
        success: Rgb { r: 0x16, g: 0xa3, b: 0x4a },
        overlay: Rgb { r: 0x00, g: 0x00, b: 0x00 },
        popover_bg: Rgb { r: 0xff, g: 0xff, b: 0xff },
        tooltip_bg: Rgb { r: 0xff, g: 0xff, b: 0xe1 },
        focus_secondary: Rgb { r: 0x25, g: 0x63, b: 0xeb },
        graph_line: Rgb { r: 0x25, g: 0x63, b: 0xeb },
        graph_fill: Rgb { r: 0xbf, g: 0xd4, b: 0xfe },
        progress_track: Rgb { r: 0xe5, g: 0xe7, b: 0xeb },
        progress_fill: Rgb { r: 0x25, g: 0x63, b: 0xeb },
    }
}

/// The dark palette: near-black surfaces, light text, light-blue accent.
pub open spec fn dark_colors() -> ThemeColors {
    ThemeColors {
        background: Rgb { r: 0x12, g: 0x12, b: 0x16 },
        surface: Rgb { r: 0x1e, g: 0x1e, b: 0x24 },
        surface_alt: Rgb { r: 0x2a, g: 0x2a, b: 0x32 },
        canvas: Rgb { r: 0x1e, g: 0x1e, b: 0x24 },
        selection_bg: Rgb { r: 0x3d, g: 0x5a, b: 0x8c },
        text: Rgb { r: 0xf4, g: 0xf4, b: 0xf8 },
        text_secondary: Rgb { r: 0xa1, g: 0xa1, b: 0xac },
        text_disabled: Rgb { r: 0x60, g: 0x60, b: 0x6c },
        caption_on_accent: Rgb { r: 0xff, g: 0xff, b: 0xff },
        accent: Rgb { r: 0x60, g: 0xa5, b: 0xfa },
        accent_hover: Rgb { r: 0x7c, g: 0xb8, b: 0xfc },
        header_inactive_bg: Rgb { r: 0x3f, g: 0x3f, b: 0x4a },
        header_inactive_text: Rgb { r: 0xa1, g: 0xa1, b: 0xac },
        border: Rgb { r: 0x3f, g: 0x3f, b: 0x4a },
        border_focus: Rgb { r: 0x60, g: 0xa5, b: 0xfa },
        danger: Rgb { r: 0xf8, g: 0x71, b: 0x71 },
        success: Rgb { r: 0x4a, g: 0xde, b: 0x80 },
        overlay: Rgb { r: 0x00, g: 0x00, b: 0x00 },
        popover_bg: Rgb { r: 0x27, g: 0x27, b: 0x30 },
        tooltip_bg: Rgb { r: 0x27, g: 0x27, b: 0x30 },
        focus_secondary: Rgb { r: 0x60, g: 0xa5, b: 0xfa },
        graph_line: Rgb { r: 0x60, g: 0xa5, b: 0xfa },
        graph_fill: Rgb { r: 0x37, g: 0x4f, b: 0x7a },
        progress_track: Rgb { r: 0x3f, g: 0x3f, b: 0x4a },
        progress_fill: Rgb { r: 0x60, g: 0xa5, b: 0xfa },
    }
}

/// The classic palette: teal desktop, gray 3D face, navy title bars and highlight.
pub open spec fn bedrock_classic_colors() -> ThemeColors {
    ThemeColors {
        background: Rgb { r: 0x00, g: 0x80, b: 0x80 },
        surface: Rgb { r: 0xc6, g: 0xc6, b: 0xc6 },
        surface_alt: Rgb { r: 0x9a, g: 0x9e, b: 0x9c },
        canvas: Rgb { r: 0xff, g: 0xff, b: 0xff },
        selection_bg: Rgb { r: 0x06, g: 0x00, b: 0x84 },
        text: Rgb { r: 0x0a, g: 0x0a, b: 0x0a },
        text_secondary: Rgb { r: 0x40, g: 0x40, b: 0x40 },
        text_disabled: Rgb { r: 0x84, g: 0x85, b: 0x84 },
        caption_on_accent: Rgb { r: 0xfe, g: 0xfe, b: 0xfe },
        accent: Rgb { r: 0x06, g: 0x00, b: 0x84 },
        accent_hover: Rgb { r: 0x06, g: 0x00, b: 0x84 },
        header_inactive_bg: Rgb { r: 0x7f, g: 0x78, b: 0x7f },
        header_inactive_text: Rgb { r: 0xc6, g: 0xc6, b: 0xc6 },
        border: Rgb { r: 0x84, g: 0x85, b: 0x84 },
        border_focus: Rgb { r: 0x0a, g: 0x0a, b: 0x0a },
        danger: Rgb { r: 0xc0, g: 0x00, b: 0x00 },
        success: Rgb { r: 0x00, g: 0x80, b: 0x00 },
        overlay: Rgb { r: 0x00, g: 0x00, b: 0x00 },
        popover_bg: Rgb { r: 0xc6, g: 0xc6, b: 0xc6 },
        tooltip_bg: Rgb { r: 0xfe, g: 0xfb, b: 0xcc },
        focus_secondary: Rgb { r: 0xfe, g: 0xfe, b: 0x03 },
        graph_line: Rgb { r: 0x06, g: 0x00, b: 0x84 },
        graph_fill: Rgb { r: 0x80, g: 0x80, b: 0xc0 },
        progress_track: Rgb { r: 0xff, g: 0xff, b: 0xff },
        progress_fill: Rgb { r: 0x06, g: 0x00, b: 0x84 },
    }
}

/// The palette that belongs to a style mode.
pub open spec fn colors_for(mode: ThemeMode) -> ThemeColors {
    match mode {
        ThemeMode::Light => light_colors(),
        ThemeMode::Dark => dark_colors(),
        ThemeMode::BedrockClassic => bedrock_classic_colors(),
    }
}

impl ThemeColors {
    /// The light palette: near-white surfaces, dark text, blue accent.
    pub fn light() -> (r: Self)
        ensures
            r == light_colors(),
    {
        ThemeColors {
            background: Rgb { r: 0xf5, g: 0xf5, b: 0xf7 },
            surface: Rgb { r: 0xff, g: 0xff, b: 0xff },
            surface_alt: Rgb { r: 0xee, g: 0xee, b: 0xf0 },
            canvas: Rgb { r: 0xff, g: 0xff, b: 0xff },
            selection_bg: Rgb { r: 0xb4, g: 0xd5, b: 0xfe },
            text: Rgb { r: 0x1a, g: 0x1a, b: 0x1e },
            text_secondary: Rgb { r: 0x55, g: 0x55, b: 0x5f },
            text_disabled: Rgb { r: 0xa8, g: 0xa8, b: 0xb0 },
            caption_on_accent: Rgb { r: 0xff, g: 0xff, b: 0xff },
            accent: Rgb { r: 0x25, g: 0x63, b: 0xeb },
            accent_hover: Rgb { r: 0x1d, g: 0x4e, b: 0xd8 },
            header_inactive_bg: Rgb { r: 0x9e, g: 0x9e, b: 0x9e },
            header_inactive_text: Rgb { r: 0xe0, g: 0xe0, b: 0xe0 },
            border: Rgb { r: 0xd1, g: 0xd5, b: 0xdb },
            border_focus: Rgb { r: 0x25, g: 0x63, b: 0xeb },
            danger: Rgb { r: 0xdc, g: 0x26, b: 0x26 },
            success: Rgb { r: 0x16, g: 0xa3, b: 0x4a },
            overlay: Rgb { r: 0x00, g: 0x00, b: 0x00 },
            popover_bg: Rgb { r: 0xff, g: 0xff, b: 0xff },
            tooltip_bg: Rgb { r: 0xff, g: 0xff, b: 0xe1 },
            focus_secondary: Rgb { r: 0x25, g: 0x63, b: 0xeb },
            graph_line: Rgb { r: 0x25, g: 0x63, b: 0xeb },
            graph_fill: Rgb { r: 0xbf, g: 0xd4, b: 0xfe },
            progress_track: Rgb { r: 0xe5, g: 0xe7, b: 0xeb },
            progress_fill: Rgb { r: 0x25, g: 0x63, b: 0xeb },
        }
    }

    /// The dark palette: near-black surfaces, light text, light-blue accent.
    pub fn dark() -> (r: Self)
        ensures
            r == dark_colors(),
    {
        ThemeColors {
            background: Rgb { r: 0x12, g: 0x12, b: 0x16 },
            surface: Rgb { r: 0x1e, g: 0x1e, b: 0x24 },
            surface_alt: Rgb { r: 0x2a, g: 0x2a, b: 0x32 },
            canvas: Rgb { r: 0x1e, g: 0x1e, b: 0x24 },
            selection_bg: Rgb { r: 0x3d, g: 0x5a, b: 0x8c },
            text: Rgb { r: 0xf4, g: 0xf4, b: 0xf8 },
            text_secondary: Rgb { r: 0xa1, g: 0xa1, b: 0xac },
            text_disabled: Rgb { r: 0x60, g: 0x60, b: 0x6c },
            caption_on_accent: Rgb { r: 0xff, g: 0xff, b: 0xff },
            accent: Rgb { r: 0x60, g: 0xa5, b: 0xfa },
            accent_hover: Rgb { r: 0x7c, g: 0xb8, b: 0xfc },
            header_inactive_bg: Rgb { r: 0x3f, g: 0x3f, b: 0x4a },
            header_inactive_text: Rgb { r: 0xa1, g: 0xa1, b: 0xac },
            border: Rgb { r: 0x3f, g: 0x3f, b: 0x4a },
            border_focus: Rgb { r: 0x60, g: 0xa5, b: 0xfa },
            danger: Rgb { r: 0xf8, g: 0x71, b: 0x71 },
            success: Rgb { r: 0x4a, g: 0xde, b: 0x80 },
            overlay: Rgb { r: 0x00, g: 0x00, b: 0x00 },
            popover_bg: Rgb { r: 0x27, g: 0x27, b: 0x30 },
            tooltip_bg: Rgb { r: 0x27, g: 0x27, b: 0x30 },
            focus_secondary: Rgb { r: 0x60, g: 0xa5, b: 0xfa },
            graph_line: Rgb { r: 0x60, g: 0xa5, b: 0xfa },
            graph_fill: Rgb { r: 0x37, g: 0x4f, b: 0x7a },
            progress_track: Rgb { r: 0x3f, g: 0x3f, b: 0x4a },
            progress_fill: Rgb { r: 0x60, g: 0xa5, b: 0xfa },
        }
    }

    /// The classic palette: teal desktop, gray 3D face, navy title bars and highlight.
    pub fn bedrock_classic() -> (r: Self)
        ensures
            r == bedrock_classic_colors(),
    {
        ThemeColors {
            background: Rgb { r: 0x00, g: 0x80, b: 0x80 },
            surface: Rgb { r: 0xc6, g: 0xc6, b: 0xc6 },
            surface_alt: Rgb { r: 0x9a, g: 0x9e, b: 0x9c },
            canvas: Rgb { r: 0xff, g: 0xff, b: 0xff },
            selection_bg: Rgb { r: 0x06, g: 0x00, b: 0x84 },
            text: Rgb { r: 0x0a, g: 0x0a, b: 0x0a },
            text_secondary: Rgb { r: 0x40, g: 0x40, b: 0x40 },
            text_disabled: Rgb { r: 0x84, g: 0x85, b: 0x84 },
            caption_on_accent: Rgb { r: 0xfe, g: 0xfe, b: 0xfe },
            accent: Rgb { r: 0x06, g: 0x00, b: 0x84 },
            accent_hover: Rgb { r: 0x06, g: 0x00, b: 0x84 },
            header_inactive_bg: Rgb { r: 0x7f, g: 0x78, b: 0x7f },
            header_inactive_text: Rgb { r: 0xc6, g: 0xc6, b: 0xc6 },
            border: Rgb { r: 0x84, g: 0x85, b: 0x84 },
            border_focus: Rgb { r: 0x0a, g: 0x0a, b: 0x0a },
            danger: Rgb { r: 0xc0, g: 0x00, b: 0x00 },
            success: Rgb { r: 0x00, g: 0x80, b: 0x00 },
            overlay: Rgb { r: 0x00, g: 0x00, b: 0x00 },
            popover_bg: Rgb { r: 0xc6, g: 0xc6, b: 0xc6 },
            tooltip_bg: Rgb { r: 0xfe, g: 0xfb, b: 0xcc },
            focus_secondary: Rgb { r: 0xfe, g: 0xfe, b: 0x03 },
            graph_line: Rgb { r: 0x06, g: 0x00, b: 0x84 },
            graph_fill: Rgb { r: 0x80, g: 0x80, b: 0xc0 },
            progress_track: Rgb { r: 0xff, g: 0xff, b: 0xff },
            progress_fill: Rgb { r: 0x06, g: 0x00, b: 0x84 },
        }
    }

    /// The palette of `mode`.
    pub fn for_mode(mode: ThemeMode) -> (r: Self)
        ensures
            r == colors_for(mode),
    {
        match mode {
            ThemeMode::Light => Self::light(),
            ThemeMode::Dark => Self::dark(),
            ThemeMode::BedrockClassic => Self::bedrock_classic(),
        }
    }
}

/// The spacing that belongs to a style mode: sharp for the classic style, the
/// default scale otherwise.
pub open spec fn spacing_for(mode: ThemeMode) -> ThemeSpacing {
    match mode {
        ThemeMode::BedrockClassic => ThemeSpacing { xs: 2, sm: 4, md: 8, lg: 12, radius_sm: 0, radius_md: 0 },
        _ => ThemeSpacing { xs: 4, sm: 8, md: 12, lg: 20, radius_sm: 4, radius_md: 8 },
    }
}

impl ThemeSpacing {
    /// The spacing of `mode`.
    pub fn for_mode(mode: ThemeMode) -> (r: Self)
        ensures
            r == spacing_for(mode),
    {
        match mode {
            ThemeMode::BedrockClassic => Self::bedrock_sharp(),
            _ => Self::default_theme(),
        }
    }
}

} // verus!
