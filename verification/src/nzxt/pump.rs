use vstd::prelude::*;

verus! {

#[derive(Debug, Clone, Copy, PartialEq, Eq, Structural)]
pub enum PumpMode {
    Silent,
    Performance,
    Custom,
}

#[derive(Debug, Clone)]
pub struct PumpState {
    pub current_rpm: u16,
    pub target_duty_percent: u8,
    pub mode: PumpMode,
}

impl Default for PumpState {
    /// 2400 RPM at 60 % duty, in silent mode.
    fn default() -> (s: Self)
        ensures
            s == (PumpState { current_rpm: 2400, target_duty_percent: 60, mode: PumpMode::Silent }),
    {
        Self { current_rpm: 2400, target_duty_percent: 60, mode: PumpMode::Silent }
    }
}

} // verus!
