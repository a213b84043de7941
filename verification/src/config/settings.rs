use vstd::prelude::*;

verus! {

/// What the LCD shows.
#[derive(Debug, Clone, Copy, PartialEq, Eq, Structural)]
pub enum LcdDisplayMode {
    CpuGpuLoad,
    LiquidGauge,
    SimulatedClock,
    CustomImage,
}

impl Default for LcdDisplayMode {
    fn default() -> (m: Self)
        ensures
            m == LcdDisplayMode::CpuGpuLoad,
    {
        Self::CpuGpuLoad
    }
}

/// How the pump or the fans are driven: a quiet curve, a performance curve, or a fixed duty.
#[derive(Debug, Clone, Copy, PartialEq, Eq, Structural)]
pub enum CoolingProfile {
    Silent,
    Performance,
    Fixed(u8),
}

impl Default for CoolingProfile {
    fn default() -> (p: Self)
        ensures
            p == CoolingProfile::Silent,
    {
        Self::Silent
    }
}

/// The persisted settings.
#[derive(Debug, Clone, Copy, PartialEq, Eq, Structural)]
pub struct AppConfig {
    pub version: u32,
    pub start_in_tray: bool,
    pub minimize_to_tray: bool,
    pub polling_interval_ms: u64,
    pub lcd_mode: LcdDisplayMode,
    pub lcd_brightness: u8,
    pub pump_profile: CoolingProfile,
    pub fan_profile: CoolingProfile,
}

/// The settings used when none are saved: version 1, a one-second poll, the load infographic
/// at 80 % brightness, silent pump and fans, minimising to the tray but not starting there.
pub open spec fn default_config() -> AppConfig {
    AppConfig {
        version: 1,
        start_in_tray: false,
        minimize_to_tray: true,
        polling_interval_ms: 1000,
        lcd_mode: LcdDisplayMode::CpuGpuLoad,
        lcd_brightness: 80,
        pump_profile: CoolingProfile::Silent,
        fan_profile: CoolingProfile::Silent,
    }
}

impl Default for AppConfig {
    fn default() -> (c: Self)
        ensures
            c == default_config(),
    {
        Self {
            version: 1,
            start_in_tray: false,
            minimize_to_tray: true,
            polling_interval_ms: 1000,
            lcd_mode: LcdDisplayMode::CpuGpuLoad,
            lcd_brightness: 80,
            pump_profile: CoolingProfile::Silent,
            fan_profile: CoolingProfile::Silent,
        }
    }
}

} // verus!
