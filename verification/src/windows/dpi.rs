use vstd::prelude::*;

verus! {

/// Per-monitor DPI handling.
pub struct DpiContext;

impl DpiContext {
    /// The DPI to lay a window out at, given what Windows reports for it: the reported value,
    /// or the standard 96 when Windows reports none (zero).
    pub fn effective_dpi(reported: u32) -> (dpi: u32)
        ensures
            dpi == if reported == 0 { 96 } else { reported },
    {
        if reported == 0 {
            96
        } else {
            reported
        }
    }
}

} // verus!
