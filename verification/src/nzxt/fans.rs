use vstd::prelude::*;

verus! {

#[derive(Debug, Clone, Copy, PartialEq, Eq, Structural)]
pub enum FanMode {
    Silent,
    Performance,
    Custom,
}

#[derive(Debug, Clone)]
pub struct FanState {
    pub current_rpm: u16,
    pub target_duty_percent: u8,
    pub mode: FanMode,
}

impl Default for FanState {
    /// 1200 RPM at half duty, in silent mode.
    fn default() -> (s: Self)
        ensures
            s == (FanState { current_rpm: 1200, target_duty_percent: 50, mode: FanMode::Silent }),
    {
        Self { current_rpm: 1200, target_duty_percent: 50, mode: FanMode::Silent }
    }
}

} // verus!
