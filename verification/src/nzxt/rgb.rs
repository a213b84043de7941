use vstd::prelude::*;

verus! {

#[derive(Debug, Clone, Copy, PartialEq, Eq, Structural)]
pub enum RgbEffect {
    Static,
    Breathing,
    Rainbow,
    LiquidSync,
    Off,
}

#[derive(Debug, Clone, Copy, PartialEq, Eq, Structural)]
pub struct RgbColor {
    pub r: u8,
    pub g: u8,
    pub b: u8,
}

impl Default for RgbColor {
    /// Cyan.
    fn default() -> (c: Self)
        ensures
            c == (RgbColor { r: 0, g: 210, b: 255 }),
    {
        Self { r: 0, g: 210, b: 255 }
    }
}

#[derive(Debug, Clone, Copy, PartialEq, Eq, Structural)]
pub struct RgbState {
    pub effect: RgbEffect,
    pub primary_color: RgbColor,
    pub secondary_color: RgbColor,
    pub speed: u8,
    pub brightness: u8,
}

impl Default for RgbState {
    /// Static cyan with a green secondary colour, at half speed and 80 % brightness.
    fn default() -> (s: Self)
        ensures
            s == (RgbState {
                effect: RgbEffect::Static,
                primary_color: RgbColor { r: 0, g: 210, b: 255 },
                secondary_color: RgbColor { r: 16, g: 185, b: 129 },
                speed: 50,
                brightness: 80,
            }),
    {
        Self {
            effect: RgbEffect::Static,
            primary_color: RgbColor::default(),
            secondary_color: RgbColor { r: 16, g: 185, b: 129 },
            speed: 50,
            brightness: 80,
        }
    }
}

} // verus!
