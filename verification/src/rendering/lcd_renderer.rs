use vstd::prelude::*;

verus! {

/// The texts of the LCD infographics, each with a format of its own.
#[derive(Debug, Clone, Copy, PartialEq, Eq, Structural)]
pub enum LcdTextRole {
    /// The `CPU` label above the upper bar.
    LabelTop,
    /// The `GPU` label below the lower bar.
    LabelBottom,
    /// The large reading above the upper bar.
    TopMetric,
    /// The large reading below the lower bar.
    BottomMetric,
    /// The unit beside the upper reading.
    TopUnit,
    /// The unit beside the lower reading.
    BottomUnit,
    /// The large temperature in the middle of the temperature infographic.
    TemperaturePrimary,
    /// The line under it.
    TemperatureSubtitle,
    /// The brand line.
    TemperatureBrand,
}

/// Horizontal placement of text in its box.
#[derive(Debug, Clone, Copy, PartialEq, Eq, Structural)]
pub enum TextAlign {
    Leading,
    Trailing,
    Center,
}

/// Vertical placement of text in its box.
#[derive(Debug, Clone, Copy, PartialEq, Eq, Structural)]
pub enum ParagraphAlign {
    Near,
    Far,
    Center,
}

/// The format of an LCD text, all in bold Segoe UI: size in canonical pixels and placement.
#[derive(Debug, Clone, Copy, PartialEq, Eq, Structural)]
pub struct LcdTextFormat {
    pub size: u32,
    pub align: TextAlign,
    pub paragraph: ParagraphAlign,
}

/// The format of each LCD text: the labels hug their bars, the readings and units are set
/// right-aligned on the bars' edges, and the temperature texts are centred.
pub open spec fn lcd_format_spec(role: LcdTextRole) -> LcdTextFormat {
    match role {
        LcdTextRole::LabelTop => LcdTextFormat { size: 15, align: TextAlign::Leading, paragraph: ParagraphAlign::Far },
        LcdTextRole::LabelBottom => LcdTextFormat { size: 15, align: TextAlign::Leading, paragraph: ParagraphAlign::Near },
        LcdTextRole::TopMetric => LcdTextFormat { size: 62, align: TextAlign::Trailing, paragraph: ParagraphAlign::Far },
        LcdTextRole::BottomMetric => LcdTextFormat {
            size: 62,
            align: TextAlign::Trailing,
            paragraph: ParagraphAlign::Near,
        },
        LcdTextRole::TopUnit => LcdTextFormat { size: 18, align: TextAlign::Trailing, paragraph: ParagraphAlign::Far },
        LcdTextRole::BottomUnit => LcdTextFormat { size: 18, align: TextAlign::Trailing, paragraph: ParagraphAlign::Far },
        LcdTextRole::TemperaturePrimary => LcdTextFormat {
            size: 46,
            align: TextAlign::Center,
            paragraph: ParagraphAlign::Center,
        },
        LcdTextRole::TemperatureSubtitle => LcdTextFormat {
            size: 16,
            align: TextAlign::Center,
            paragraph: ParagraphAlign::Center,
        },
        LcdTextRole::TemperatureBrand => LcdTextFormat {
            size: 13,
            align: TextAlign::Center,
            paragraph: ParagraphAlign::Center,
        },
    }
}

pub fn lcd_text_format(role: LcdTextRole) -> (f: LcdTextFormat)
    ensures
        f == lcd_format_spec(role),
{
    match role {
        LcdTextRole::LabelTop => LcdTextFormat { size: 15, align: TextAlign::Leading, paragraph: ParagraphAlign::Far },
        LcdTextRole::LabelBottom => LcdTextFormat { size: 15, align: TextAlign::Leading, paragraph: ParagraphAlign::Near },
        LcdTextRole::TopMetric => LcdTextFormat { size: 62, align: TextAlign::Trailing, paragraph: ParagraphAlign::Far },
        LcdTextRole::BottomMetric => LcdTextFormat {
            size: 62,
            align: TextAlign::Trailing,
            paragraph: ParagraphAlign::Near,
        },
        LcdTextRole::TopUnit => LcdTextFormat { size: 18, align: TextAlign::Trailing, paragraph: ParagraphAlign::Far },
        LcdTextRole::BottomUnit => LcdTextFormat { size: 18, align: TextAlign::Trailing, paragraph: ParagraphAlign::Far },
        LcdTextRole::TemperaturePrimary => LcdTextFormat {
            size: 46,
            align: TextAlign::Center,
            paragraph: ParagraphAlign::Center,
        },
        LcdTextRole::TemperatureSubtitle => LcdTextFormat {
            size: 16,
            align: TextAlign::Center,
            paragraph: ParagraphAlign::Center,
        },
        LcdTextRole::TemperatureBrand => LcdTextFormat {
            size: 13,
            align: TextAlign::Center,
            paragraph: ParagraphAlign::Center,
        },
    }
}

} // verus!
