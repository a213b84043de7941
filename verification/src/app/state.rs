use vstd::prelude::*;
use crate::nzxt::lcd::InfographicType;

verus! {

/// What the UI knows of the LCD: its size, brightness, the infographic on it, and a copy of the
/// last RGBA frame sent to it.
#[derive(Debug, Clone)]
pub struct LcdState {
    pub width: u32,
    pub height: u32,
    pub brightness: u8,
    pub active_infographic: InfographicType,
    pub is_clearing: bool,
    pub preview_buffer: Vec<u8>,
}

impl Default for LcdState {
    /// A 240×240 LCD at 80 % brightness showing the load infographic, with an all-zero preview.
    fn default() -> (s: Self)
        ensures
            s.width == 240,
            s.height == 240,
            s.brightness == 80,
            s.active_infographic == InfographicType::CpuGpuLoad,
            !s.is_clearing,
            s.preview_buffer@ == Seq::new(240 * 240 * 4, |i: int| 0u8),
    {
        let width: u32 = 240;
        let height: u32 = 240;
        let size = (width * height * 4) as usize;
        let preview_buffer = vec![0u8; size];
        assert(preview_buffer@ =~= Seq::new(240 * 240 * 4, |i: int| 0u8));
        Self {
            width,
            height,
            brightness: 80,
            active_infographic: InfographicType::CpuGpuLoad,
            is_clearing: false,
            preview_buffer,
        }
    }
}

} // verus!
