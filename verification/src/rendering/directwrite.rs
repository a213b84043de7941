use vstd::prelude::*;

verus! {

/// The text styles of the UI and the LCD.
#[derive(Debug, Clone, Copy, PartialEq, Eq, Structural)]
pub enum TypographyRole {
    AppTitle,
    CardHeader,
    MetricLarge,
    MetricUnit,
    Body,
    Caption,
    Monospace,
    LcdCenterBig,
    LcdCenterSmall,
}

/// DirectWrite font weights.
pub const FONT_WEIGHT_NORMAL: u32 = 400;
pub const FONT_WEIGHT_SEMI_BOLD: u32 = 600;
pub const FONT_WEIGHT_BOLD: u32 = 700;

/// How the text of a role is set: font family, weight, size in device-independent pixels, and
/// whether it is centred horizontally and vertically in its box.
#[derive(Debug, Clone, Copy, PartialEq, Eq)]
pub struct TextStyle {
    pub family: &'static str,
    pub weight: u32,
    pub size: u32,
    pub centered: bool,
}

/// The style of each role: Segoe UI throughout but for the monospace role (Consolas); only the
/// two LCD roles are centred.
pub open spec fn role_style(role: TypographyRole) -> (Seq<char>, u32, u32, bool) {
    match role {
        TypographyRole::AppTitle => ("Segoe UI"@, FONT_WEIGHT_BOLD, 20, false),
        TypographyRole::CardHeader => ("Segoe UI"@, FONT_WEIGHT_SEMI_BOLD, 13, false),
        TypographyRole::MetricLarge => ("Segoe UI"@, FONT_WEIGHT_BOLD, 22, false),
        TypographyRole::MetricUnit => ("Segoe UI"@, FONT_WEIGHT_NORMAL, 11, false),
        TypographyRole::Body => ("Segoe UI"@, FONT_WEIGHT_NORMAL, 12, false),
        TypographyRole::Caption => ("Segoe UI"@, FONT_WEIGHT_NORMAL, 10, false),
        TypographyRole::Monospace => ("Consolas"@, FONT_WEIGHT_NORMAL, 11, false),
        TypographyRole::LcdCenterBig => ("Segoe UI"@, FONT_WEIGHT_BOLD, 24, true),
        TypographyRole::LcdCenterSmall => ("Segoe UI"@, FONT_WEIGHT_SEMI_BOLD, 11, true),
    }
}

/// The text format a role is drawn with.
pub fn text_style(role: TypographyRole) -> (s: TextStyle)
    ensures
        (s.family@, s.weight, s.size, s.centered) == role_style(role),
{
    match role {
        TypographyRole::AppTitle => TextStyle { family: "Segoe UI", weight: FONT_WEIGHT_BOLD, size: 20, centered: false },
        TypographyRole::CardHeader => TextStyle {
            family: "Segoe UI",
            weight: FONT_WEIGHT_SEMI_BOLD,
            size: 13,
            centered: false,
        },
        TypographyRole::MetricLarge => TextStyle {
            family: "Segoe UI",
            weight: FONT_WEIGHT_BOLD,
            size: 22,
            centered: false,
        },
        TypographyRole::MetricUnit => TextStyle {
            family: "Segoe UI",
            weight: FONT_WEIGHT_NORMAL,
            size: 11,
            centered: false,
        },
        TypographyRole::Body => TextStyle { family: "Segoe UI", weight: FONT_WEIGHT_NORMAL, size: 12, centered: false },
        TypographyRole::Caption => TextStyle { family: "Segoe UI", weight: FONT_WEIGHT_NORMAL, size: 10, centered: false },
        TypographyRole::Monospace => TextStyle { family: "Consolas", weight: FONT_WEIGHT_NORMAL, size: 11, centered: false },
        TypographyRole::LcdCenterBig => TextStyle { family: "Segoe UI", weight: FONT_WEIGHT_BOLD, size: 24, centered: true },
        TypographyRole::LcdCenterSmall => TextStyle {
            family: "Segoe UI",
            weight: FONT_WEIGHT_SEMI_BOLD,
            size: 11,
            centered: true,
        },
    }
}

} // verus!
