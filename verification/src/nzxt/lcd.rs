use vstd::prelude::*;
use vstd::string::*;
use vstd::slice::slice_to_vec;
use std::sync::Arc;
use crate::decimal::{decimal_chars, decimal_digits, lemma_decimal_len_bound};

verus! {

/// The infographics the LCD rotates through.
#[derive(Debug, Clone, Copy, PartialEq, Eq, Hash, Structural)]
pub enum InfographicType {
    CpuGpuLoad,
    CpuGpuTemperature,
}

/// The infographic shown after `t` in the rotation.
pub open spec fn next_infographic(t: InfographicType) -> InfographicType {
    match t {
        InfographicType::CpuGpuLoad => InfographicType::CpuGpuTemperature,
        InfographicType::CpuGpuTemperature => InfographicType::CpuGpuLoad,
    }
}

/// The title of infographic `t`.
pub open spec fn infographic_name(t: InfographicType) -> Seq<char> {
    match t {
        InfographicType::CpuGpuLoad => "CPU/GPU Load"@,
        InfographicType::CpuGpuTemperature => "CPU/GPU Temperature"@,
    }
}

impl InfographicType {
    /// Every infographic, in rotation order.
    pub const ALL: [InfographicType; 2] = [InfographicType::CpuGpuLoad, InfographicType::CpuGpuTemperature];

    pub fn next(&self) -> (n: Self)
        ensures
            n == next_infographic(*self),
    {
        match self {
            Self::CpuGpuLoad => Self::CpuGpuTemperature,
            Self::CpuGpuTemperature => Self::CpuGpuLoad,
        }
    }

    pub fn name(&self) -> (s: &'static str)
        ensures
            s@ == infographic_name(*self),
    {
        match self {
            Self::CpuGpuLoad => "CPU/GPU Load",
            Self::CpuGpuTemperature => "CPU/GPU Temperature",
        }
    }
}

/// The rotation alternates: the infographic after the next one is the one we started from,
/// and the next one always differs.
pub proof fn lemma_next_alternates(t: InfographicType)
    ensures
        next_infographic(next_infographic(t)) == t,
        next_infographic(t) != t,
{
}

/// Each infographic is followed by the one after it in `ALL`, and the last by the first.
pub proof fn lemma_next_follows_all_order(i: int)
    requires
        0 <= i < 2,
    ensures
        next_infographic(InfographicType::ALL@[i]) == InfographicType::ALL@[(i + 1) % 2],
{
}

/// The state of an infographic rotation: what is shown, when the rotation timer was last reset,
/// and how long each infographic stays. Times are in milliseconds on one monotonic clock.
pub struct RotationView {
    pub current: InfographicType,
    pub last_rotation: u64,
    pub rotation_duration: u64,
}

/// Milliseconds from `since` to `now`, or zero when `now` is earlier.
pub open spec fn elapsed_since(since: u64, now: u64) -> u64 {
    if now >= since {
        (now - since) as u64
    } else {
        0
    }
}

/// What a timer check at `now` does: when the rotation period has run out, the next
/// infographic is shown and the timer restarts at `now`; the flag says whether it rotated.
pub open spec fn rotation_tick(v: RotationView, now: u64) -> (RotationView, bool) {
    if elapsed_since(v.last_rotation, now) >= v.rotation_duration {
        (RotationView { current: next_infographic(v.current), last_rotation: now, rotation_duration: v.rotation_duration }, true)
    } else {
        (v, false)
    }
}

/// A rotation restarts the timer: right after rotating at `now`, nothing has elapsed, the whole
/// period remains, and (for a non-zero period) a second check at the same instant does not rotate.
pub proof fn lemma_rotation_restarts_timer(v: RotationView, now: u64)
    requires
        rotation_tick(v, now).1,
    ensures
        elapsed_since(rotation_tick(v, now).0.last_rotation, now) == 0,
        rotation_tick(v, now).0.rotation_duration == v.rotation_duration,
        v.rotation_duration > 0 ==> !rotation_tick(rotation_tick(v, now).0, now).1,
{
}

/// No rotation happens before a full period has passed since the timer was reset.
pub proof fn lemma_no_rotation_within_period(v: RotationView, now: u64)
    requires
        v.last_rotation <= now < v.last_rotation + v.rotation_duration,
    ensures
        rotation_tick(v, now) == (v, false),
{
}

/// Once a rotation has happened at `now`, a check one period later rotates again, bringing
/// back the infographic shown before the first rotation.
pub proof fn lemma_rotation_cycles_back(v: RotationView, now: u64)
    requires
        rotation_tick(v, now).1,
        now + v.rotation_duration <= u64::MAX,
    ensures
        ({
            let (v1, _) = rotation_tick(v, now);
            let (v2, r2) = rotation_tick(v1, (now + v.rotation_duration) as u64);
            r2 && v2.current == v.current
        }),
{
}

/// Rotates the LCD through the infographics, each shown for a fixed period.
pub struct InfographicRotationManager {
    current: InfographicType,
    last_rotation: u64,
    rotation_duration: u64,
}

impl View for InfographicRotationManager {
    type V = RotationView;

    closed spec fn view(&self) -> RotationView {
        RotationView { current: self.current, last_rotation: self.last_rotation, rotation_duration: self.rotation_duration }
    }
}

impl InfographicRotationManager {
    pub const DEFAULT_ROTATION_SECS: u64 = 5;
    pub const CLEAR_TRANSITION_MS: u64 = 100;

    /// A rotation starting at `initial` at time `now`, with the default five-second period.
    pub fn new(initial: InfographicType, now: u64) -> (m: Self)
        ensures
            m@ == (RotationView { current: initial, last_rotation: now, rotation_duration: 5000 }),
    {
        Self::with_duration(initial, Self::DEFAULT_ROTATION_SECS * 1000, now)
    }

    /// A rotation starting at `initial` at time `now`, with a period of `duration` milliseconds.
    pub fn with_duration(initial: InfographicType, duration: u64, now: u64) -> (m: Self)
        ensures
            m@ == (RotationView { current: initial, last_rotation: now, rotation_duration: duration }),
    {
        Self { current: initial, last_rotation: now, rotation_duration: duration }
    }

    pub fn current(&self) -> (c: InfographicType)
        ensures
            c == self@.current,
    {
        self.current
    }

    /// Shows `infographic`; a change restarts the timer at `now`, and choosing what is already
    /// shown changes nothing.
    pub fn set_current(&mut self, infographic: InfographicType, now: u64)
        ensures
            final(self)@ == if old(self)@.current != infographic {
                RotationView { current: infographic, last_rotation: now, rotation_duration: old(self)@.rotation_duration }
            } else {
                old(self)@
            },
    {
        if self.current != infographic {
            self.current = infographic;
            self.last_rotation = now;
        }
    }

    pub fn reset_timer(&mut self, now: u64)
        ensures
            final(self)@ == (RotationView { last_rotation: now, ..old(self)@ }),
    {
        self.last_rotation = now;
    }

    pub fn rotation_duration(&self) -> (d: u64)
        ensures
            d == self@.rotation_duration,
    {
        self.rotation_duration
    }

    pub fn set_rotation_duration(&mut self, duration: u64)
        ensures
            final(self)@ == (RotationView { rotation_duration: duration, ..old(self)@ }),
    {
        self.rotation_duration = duration;
    }

    /// Checks whether the rotation period has elapsed at `now`; if so, switches to the next
    /// infographic, restarts the timer at `now` and returns true, and otherwise changes nothing
    /// and returns false.
    pub fn tick(&mut self, now: u64) -> (rotated: bool)
        ensures
            (final(self)@, rotated) == rotation_tick(old(self)@, now),
    {
        let elapsed = if now >= self.last_rotation { now - self.last_rotation } else { 0 };
        if elapsed >= self.rotation_duration {
            self.current = self.current.next();
            self.last_rotation = now;
            true
        } else {
            false
        }
    }

    /// Milliseconds since the timer was last reset, or zero for an earlier `now`.
    pub fn elapsed(&self, now: u64) -> (e: u64)
        ensures
            e == elapsed_since(self@.last_rotation, now),
    {
        if now >= self.last_rotation {
            now - self.last_rotation
        } else {
            0
        }
    }

    /// Milliseconds left before the next rotation is due, or zero when it is due.
    pub fn time_remaining(&self, now: u64) -> (t: u64)
        ensures
            t == if elapsed_since(self@.last_rotation, now) <= self@.rotation_duration {
                (self@.rotation_duration - elapsed_since(self@.last_rotation, now)) as u64
            } else {
                0
            },
    {
        let e = self.elapsed(now);
        if e <= self.rotation_duration {
            self.rotation_duration - e
        } else {
            0
        }
    }
}

/// The four bytes (red, green, blue, alpha) of the pixel at column `x`, row `y`
/// of a row-major RGBA surface `w` pixels wide.
pub open spec fn pixel_at(p: Seq<u8>, w: int, x: int, y: int) -> (u8, u8, u8, u8) {
    let i = (y * w + x) * 4;
    (p[i], p[i + 1], p[i + 2], p[i + 3])
}

/// Distinct pixels of a `w`×`h` surface own disjoint groups of four bytes, all inside the buffer.
pub proof fn lemma_pixel_offsets(w: int, h: int, x: int, y: int, x2: int, y2: int)
    requires
        0 <= x < w,
        0 <= y < h,
        0 <= x2 < w,
        0 <= y2 < h,
    ensures
        (y * w + x) * 4 + 4 <= w * h * 4,
        0 <= (y * w + x) * 4,
        (x != x2 || y != y2) ==> (y * w + x != y2 * w + x2),
{
    assert(y * w + x < w * h) by (nonlinear_arith)
        requires 0 <= x < w, 0 <= y < h;
    assert(0 <= y * w) by (nonlinear_arith)
        requires 0 <= y, 0 <= w;
    if x != x2 || y != y2 {
        if y == y2 {
        } else if y < y2 {
            assert(y * w + w <= y2 * w) by (nonlinear_arith)
                requires y < y2, 0 <= w;
        } else {
            assert(y2 * w + w <= y * w) by (nonlinear_arith)
                requires y2 < y, 0 <= w;
        }
    }
}


/// Why a frame could not be shown.
#[derive(Debug)]
pub enum LcdError {
    BufferMismatch { expected: usize, actual: usize },
    Hardware(String),
}

#[verifier::external_type_specification]
#[verifier::external_body]
#[verifier::reject_recursive_types(T)]
pub struct ExRwLock<T: ?Sized>(std::sync::RwLock<T>);

/// Calls `std::sync::RwLock::new`. Nothing is stated of the lock: whoever else holds it may
/// change what it guards.
#[verifier::external_body]
fn new_frame_lock(frame: Vec<u8>) -> std::sync::RwLock<Vec<u8>> {
    std::sync::RwLock::new(frame)
}

/// Calls `Arc::clone`: the result shares the lock that `lock` points to.
#[verifier::external_body]
fn share_frame_lock(lock: &Arc<std::sync::RwLock<Vec<u8>>>) -> (r: Arc<std::sync::RwLock<Vec<u8>>>)
    ensures
        r == *lock,
{
    Arc::clone(lock)
}

/// Calls `std::sync::RwLock::write` and, when the lock is not poisoned, replaces the guarded
/// bytes with `frame`. Nothing is stated of the lock afterwards, since other holders share it.
#[verifier::external_body]
fn store_frame(lock: &std::sync::RwLock<Vec<u8>>, frame: Vec<u8>) {
    if let Ok(mut guard) = lock.write() {
        *guard = frame;
    }
}

/// The bytes of an opaque black RGBA frame of `n` bytes.
pub open spec fn blank_frame_bytes(n: nat) -> Seq<u8> {
    Seq::new(n, |i: int| if i % 4 == 3 { 255u8 } else { 0u8 })
}

/// An opaque black RGBA frame for a `width`×`height` display. The byte count is computed as
/// `width * height * 4` in wrapping `u32` arithmetic.
pub fn blank_frame(width: u32, height: u32) -> (frame: Vec<u8>)
    ensures
        frame@ == blank_frame_bytes(width.wrapping_mul(height).wrapping_mul(4) as nat),
{
    let n = width.wrapping_mul(height).wrapping_mul(4) as usize;
    let mut frame: Vec<u8> = Vec::new();
    let mut i: usize = 0;
    while i < n
        invariant
            i <= n,
            frame@ == blank_frame_bytes(i as nat),
        decreases n - i,
    {
        if i % 4 == 3 {
            frame.push(255);
        } else {
            frame.push(0);
        }
        i = i + 1;
        assert(frame@ =~= blank_frame_bytes(i as nat));
    }
    frame
}

/// An RGBA display that frames are sent to.
pub trait Display: Send {
    fn width(&self) -> u32;

    fn height(&self) -> u32;

    fn submit_frame(&mut self, frame: &[u8]) -> Result<(), LcdError>;

    /// Sends an opaque black frame the size of the display.
    fn clear_screen(&mut self) -> Result<(), LcdError> {
        let blank = blank_frame(self.width(), self.height());
        self.submit_frame(blank.as_slice())
    }
}

/// A display that keeps the last frame in memory, shared with whoever holds the buffer that
/// `new` returns.
pub struct SimulatedDisplay {
    width: u32,
    height: u32,
    framebuffer: Arc<std::sync::RwLock<Vec<u8>>>,
}

impl SimulatedDisplay {
    #[verifier::type_invariant]
    spec fn inv(&self) -> bool {
        self.width * self.height * 4 <= u32::MAX
    }

    /// The frame size in bytes that the display takes.
    pub closed spec fn frame_len(&self) -> nat {
        (self.width * self.height * 4) as nat
    }

    pub closed spec fn dims(&self) -> (u32, u32) {
        (self.width, self.height)
    }

    /// A `width`×`height` display whose frame buffer starts all zero, and that buffer.
    pub fn new(width: u32, height: u32) -> (r: (Self, Arc<std::sync::RwLock<Vec<u8>>>))
        requires
            width * height * 4 <= u32::MAX,
        ensures
            r.0.dims() == (width, height),
            r.0.frame_len() == width * height * 4,
    {
        let size = (width * height * 4) as usize;
        let buffer = Arc::new(new_frame_lock(vec![0u8; size]));
        let display = Self { width, height, framebuffer: share_frame_lock(&buffer) };
        (display, buffer)
    }
}

impl Display for SimulatedDisplay {
    fn width(&self) -> (w: u32)
        ensures
            w == self.dims().0,
    {
        self.width
    }

    fn height(&self) -> (h: u32)
        ensures
            h == self.dims().1,
    {
        self.height
    }

    /// Stores `frame` when it holds exactly four bytes per pixel, and otherwise refuses it.
    fn submit_frame(&mut self, frame: &[u8]) -> (r: Result<(), LcdError>)
        ensures
            final(self).dims() == old(self).dims(),
            final(self).frame_len() == old(self).frame_len(),
            r is Ok <==> frame@.len() == old(self).frame_len(),
            r matches Err(e) ==> e == (LcdError::BufferMismatch {
                expected: old(self).frame_len() as usize,
                actual: frame@.len() as usize,
            }),
    {
        proof { use_type_invariant(&*self); }
        let expected = (self.width * self.height * 4) as usize;
        if frame.len() != expected {
            return Err(LcdError::BufferMismatch { expected, actual: frame.len() });
        }
        store_frame(&self.framebuffer, slice_to_vec(frame));
        Ok(())
    }

    /// Sends an opaque black frame the size of the display, which the display always accepts.
    fn clear_screen(&mut self) -> (r: Result<(), LcdError>)
        ensures
            r is Ok,
            final(self).dims() == old(self).dims(),
            final(self).frame_len() == old(self).frame_len(),
    {
        proof { use_type_invariant(&*self); }
        let blank = blank_frame(self.width, self.height);
        assert(self.width * self.height <= u32::MAX) by (nonlinear_arith)
            requires self.width * self.height * 4 <= u32::MAX;
        assert(self.width.wrapping_mul(self.height) == self.width * self.height);
        assert(self.width.wrapping_mul(self.height).wrapping_mul(4) == self.width * self.height * 4);
        self.submit_frame(blank.as_slice())
    }
}

/// The 5x7 font: one entry per glyph, five column bytes each; bit `r` of a column byte lights row `r`.
/// Entries 0 to 94 are ASCII 32 to 126; entry 95 is the degree sign.
pub const FONT_5X7: [[u8; 5]; 96] = [
    [0x00, 0x00, 0x00, 0x00, 0x00], // space
    [0x00, 0x00, 0x5F, 0x00, 0x00], // !
    [0x00, 0x07, 0x00, 0x07, 0x00], // double quote
    [0x14, 0x7F, 0x14, 0x7F, 0x14], // #
    [0x24, 0x2A, 0x7F, 0x2A, 0x12], // $
    [0x23, 0x13, 0x08, 0x64, 0x62], // %
    [0x36, 0x49, 0x55, 0x22, 0x50], // &
    [0x00, 0x05, 0x03, 0x00, 0x00], // single quote
    [0x00, 0x1C, 0x22, 0x41, 0x00], // left parenthesis
    [0x00, 0x41, 0x22, 0x1C, 0x00], // right parenthesis
    [0x14, 0x08, 0x3E, 0x08, 0x14], // *
    [0x08, 0x08, 0x3E, 0x08, 0x08], // +
    [0x00, 0x50, 0x30, 0x00, 0x00], // ,
    [0x08, 0x08, 0x08, 0x08, 0x08], // -
    [0x00, 0x60, 0x60, 0x00, 0x00], // .
    [0x20, 0x10, 0x08, 0x04, 0x02], // /
    [0x3E, 0x51, 0x49, 0x45, 0x3E], // 0
    [0x00, 0x42, 0x7F, 0x40, 0x00], // 1
    [0x42, 0x61, 0x51, 0x49, 0x46], // 2
    [0x21, 0x41, 0x45, 0x4B, 0x31], // 3
    [0x18, 0x14, 0x12, 0x7F, 0x10], // 4
    [0x27, 0x45, 0x45, 0x45, 0x39], // 5
    [0x3C, 0x4A, 0x49, 0x49, 0x30], // 6
    [0x01, 0x71, 0x09, 0x05, 0x03], // 7
    [0x36, 0x49, 0x49, 0x49, 0x36], // 8
    [0x06, 0x49, 0x49, 0x29, 0x1E], // 9
    [0x00, 0x36, 0x36, 0x00, 0x00], // :
    [0x00, 0x56, 0x36, 0x00, 0x00], // ;
    [0x08, 0x14, 0x22, 0x41, 0x00], // <
    [0x14, 0x14, 0x14, 0x14, 0x14], // =
    [0x00, 0x41, 0x22, 0x14, 0x08], // >
    [0x02, 0x01, 0x51, 0x09, 0x06], // ?
    [0x32, 0x49, 0x79, 0x41, 0x3E], // @
    [0x7E, 0x11, 0x11, 0x11, 0x7E], // A
    [0x7F, 0x49, 0x49, 0x49, 0x36], // B
    [0x3E, 0x41, 0x41, 0x41, 0x22], // C
    [0x7F, 0x41, 0x41, 0x22, 0x1C], // D
    [0x7F, 0x49, 0x49, 0x49, 0x41], // E
    [0x7F, 0x09, 0x09, 0x09, 0x01], // F
    [0x3E, 0x41, 0x49, 0x49, 0x7A], // G
    [0x7F, 0x08, 0x08, 0x08, 0x7F], // H
    [0x00, 0x41, 0x7F, 0x41, 0x00], // I
    [0x20, 0x40, 0x41, 0x3F, 0x01], // J
    [0x7F, 0x08, 0x14, 0x22, 0x41], // K
    [0x7F, 0x40, 0x40, 0x40, 0x40], // L
    [0x7F, 0x02, 0x0C, 0x02, 0x7F], // M
    [0x7F, 0x04, 0x08, 0x10, 0x7F], // N
    [0x3E, 0x41, 0x41, 0x41, 0x3E], // O
    [0x7F, 0x09, 0x09, 0x09, 0x06], // P
    [0x3E, 0x41, 0x51, 0x21, 0x5E], // Q
    [0x7F, 0x09, 0x19, 0x29, 0x46], // R
    [0x46, 0x49, 0x49, 0x49, 0x31], // S
    [0x01, 0x01, 0x7F, 0x01, 0x01], // T
    [0x3F, 0x40, 0x40, 0x40, 0x3F], // U
    [0x1F, 0x20, 0x40, 0x20, 0x1F], // V
    [0x7F, 0x20, 0x18, 0x20, 0x7F], // W
    [0x63, 0x14, 0x08, 0x14, 0x63], // X
    [0x07, 0x08, 0x70, 0x08, 0x07], // Y
    [0x61, 0x51, 0x49, 0x45, 0x43], // Z
    [0x00, 0x7F, 0x41, 0x41, 0x00], // left square bracket
    [0x02, 0x04, 0x08, 0x10, 0x20], // backslash
    [0x00, 0x41, 0x41, 0x7F, 0x00], // right square bracket
    [0x04, 0x02, 0x01, 0x02, 0x04], // ^
    [0x40, 0x40, 0x40, 0x40, 0x40], // _
    [0x00, 0x01, 0x02, 0x04, 0x00], // backtick
    [0x20, 0x54, 0x54, 0x54, 0x78], // a
    [0x7F, 0x48, 0x44, 0x44, 0x38], // b
    [0x38, 0x44, 0x44, 0x44, 0x20], // c
    [0x38, 0x44, 0x44, 0x48, 0x7F], // d
    [0x38, 0x54, 0x54, 0x54, 0x18], // e
    [0x08, 0x7E, 0x09, 0x01, 0x02], // f
    [0x0C, 0x52, 0x52, 0x52, 0x3E], // g
    [0x7F, 0x08, 0x04, 0x04, 0x78], // h
    [0x00, 0x44, 0x7D, 0x40, 0x00], // i
    [0x20, 0x40, 0x44, 0x3D, 0x00], // j
    [0x7F, 0x10, 0x28, 0x44, 0x00], // k
    [0x00, 0x41, 0x7F, 0x40, 0x00], // l
    [0x7C, 0x04, 0x18, 0x04, 0x78], // m
    [0x7C, 0x08, 0x04, 0x04, 0x78], // n
    [0x38, 0x44, 0x44, 0x44, 0x38], // o
    [0x7C, 0x14, 0x14, 0x14, 0x08], // p
    [0x08, 0x14, 0x14, 0x18, 0x7C], // q
    [0x7C, 0x08, 0x04, 0x04, 0x08], // r
    [0x48, 0x54, 0x54, 0x54, 0x20], // s
    [0x04, 0x3F, 0x44, 0x40, 0x20], // t
    [0x3C, 0x40, 0x40, 0x20, 0x7C], // u
    [0x1C, 0x20, 0x40, 0x20, 0x1C], // v
    [0x3C, 0x40, 0x30, 0x40, 0x3C], // w
    [0x44, 0x28, 0x10, 0x28, 0x44], // x
    [0x0C, 0x50, 0x50, 0x50, 0x3C], // y
    [0x44, 0x64, 0x54, 0x4C, 0x44], // z
    [0x00, 0x08, 0x36, 0x41, 0x00], // left curly bracket
    [0x00, 0x00, 0x7F, 0x00, 0x00], // |
    [0x00, 0x41, 0x36, 0x08, 0x00], // right curly bracket
    [0x08, 0x08, 0x2A, 0x1C, 0x08], // tilde, drawn as a small arrow
    [0x00, 0x06, 0x09, 0x09, 0x06], // degree symbol at index 95
];

/// The font entry that `ch` is drawn with, if it has one.
pub open spec fn glyph_index(ch: char) -> Option<int> {
    if 32 <= (ch as u32) && (ch as u32) <= 126 {
        Some(ch as u32 - 32)
    } else if ch == '\u{00B0}' || ch == '\u{00BA}' {
        Some(95)
    } else {
        None
    }
}

/// Whether bit `row` of a glyph column byte is set.
pub open spec fn glyph_bit(column: u8, row: u8) -> bool {
    (column >> row) & 1u8 == 1u8
}

/// Whether pixel (`x`, `y`) is lit when glyph `gi` is drawn with its top-left corner at
/// (`sx`, `sy`), each font dot becoming a `scale`×`scale` block.
pub open spec fn glyph_covers(gi: int, sx: int, sy: int, scale: int, x: int, y: int) -> bool {
    &&& scale > 0
    &&& sx <= x < sx + 5 * scale
    &&& sy <= y < sy + 7 * scale
    &&& glyph_bit(FONT_5X7@[gi]@[(x - sx) / scale], ((y - sy) / scale) as u8)
}

/// Whether pixel (`x`, `y`) is lit when `ch` is drawn at (`sx`, `sy`) with the given scale;
/// a character without a glyph lights nothing.
pub open spec fn char_covers(ch: char, sx: int, sy: int, scale: int, x: int, y: int) -> bool {
    match glyph_index(ch) {
        Some(gi) => glyph_covers(gi, sx, sy, scale, x, y),
        None => false,
    }
}

fn glyph_index_of(ch: char) -> (r: Option<usize>)
    ensures
        r == (match glyph_index(ch) { Some(gi) => Some(gi as usize), None => None::<usize> }),
{
    let c = ch as u32;
    if 32 <= c && c <= 126 {
        Some((c - 32) as usize)
    } else if ch == '\u{00B0}' || ch == '\u{00BA}' {
        Some(95)
    } else {
        None
    }
}

/// Whether any of the characters `cs`, the `i`-th drawn at (`sx + i * step`, `sy`), lights
/// pixel (`x`, `y`).
pub open spec fn text_covers(cs: Seq<char>, sx: int, step: int, sy: int, scale: int, x: int, y: int) -> bool
    decreases cs.len(),
{
    if cs.len() == 0 {
        false
    } else {
        text_covers(cs.drop_last(), sx, step, sy, scale, x, y) || char_covers(
            cs.last(),
            sx + (cs.len() - 1) * step,
            sy,
            scale,
            x,
            y,
        )
    }
}

/// Text drawn with its top edge at row `sy` stays within the `7 * scale` rows below it.
pub proof fn lemma_text_rows(cs: Seq<char>, sx: int, step: int, sy: int, scale: int, x: int, y: int)
    ensures
        text_covers(cs, sx, step, sy, scale, x, y) ==> sy <= y < sy + 7 * scale,
    decreases cs.len(),
{
    if cs.len() > 0 {
        lemma_text_rows(cs.drop_last(), sx, step, sy, scale, x, y);
    }
}

/// Whether (`x`, `y`) lies in the `rw`×`rh` rectangle whose top-left pixel is (`x0`, `y0`).
pub open spec fn in_rect(x0: int, y0: int, rw: int, rh: int, x: int, y: int) -> bool {
    x0 <= x < x0 + rw && y0 <= y < y0 + rh
}

/// The byte at offset `i` of a surface cleared to opaque (`r`, `g`, `b`).
pub open spec fn cleared_byte(i: int, r: u8, g: u8, b: u8) -> u8 {
    if i % 4 == 0 {
        r
    } else if i % 4 == 1 {
        g
    } else if i % 4 == 2 {
        b
    } else {
        255
    }
}

/// The characters of `s`, in order.
pub fn str_chars(s: &str) -> (v: Vec<char>)
    ensures
        v@ == s@,
{
    let n = s.unicode_len();
    let mut v: Vec<char> = Vec::new();
    let mut i: usize = 0;
    while i < n
        invariant
            n == s@.len(),
            i <= n,
            v@ == s@.take(i as int),
        decreases n - i,
    {
        let c = s.get_char(i);
        v.push(c);
        i = i + 1;
        assert(v@ =~= s@.take(i as int));
    }
    assert(s@.take(n as int) =~= s@);
    v
}

/// The left edge of a line `total_w` pixels wide centred on a surface `width` pixels wide;
/// a line at least as wide as the surface starts at its left edge.
pub open spec fn centered_start(width: int, total_w: int) -> int {
    if total_w < width {
        (width - total_w) / 2
    } else {
        0
    }
}

/// Left edge of both bars.
pub const BAR_X: u32 = 71;
/// Width of both bars, which is also the widest fill.
pub const BAR_WIDTH: u32 = 98;
/// Top row of the upper (CPU) bar.
pub const CPU_BAR_Y: u32 = 108;
/// Top row of the lower (GPU) bar.
pub const GPU_BAR_Y: u32 = 123;
/// Height of both bars.
pub const BAR_HEIGHT: u32 = 9;

/// One bar of the dual-bar infographic as the LCD shows it: how many pixels of the bar are
/// filled, and the whole number printed beside it (`None` for a reading that is not a number).
#[derive(Clone, Copy, Debug, PartialEq, Eq)]
pub struct BarReading {
    pub fill: u32,
    pub value: Option<u32>,
}

/// The text printed for a reading: its decimal numeral, capped at 100, or `NaN`.
pub open spec fn reading_text(value: Option<u32>) -> Seq<char> {
    match value {
        Some(n) => decimal_digits(if n <= 100 { n as nat } else { 100nat }),
        None => seq!['N', 'a', 'N'],
    }
}

/// The fill of a bar in pixels, capped at the bar's width.
pub open spec fn bar_fill(reading: BarReading) -> int {
    if reading.fill <= BAR_WIDTH {
        reading.fill as int
    } else {
        BAR_WIDTH as int
    }
}

/// Whether pixel (`x`, `y`) belongs to the white text of the dual-bar infographic: the `CPU`
/// and `GPU` labels, the unit beside each bar, and each reading at four times the font size.
pub open spec fn bars_text_covers(top: BarReading, bot: BarReading, unit: Seq<char>, x: int, y: int) -> bool {
    let td = reading_text(top.value);
    let bd = reading_text(bot.value);
    let labels = text_covers(seq!['C', 'P', 'U'], 73, 7, 96, 1, x, y) || text_covers(
        seq!['G', 'P', 'U'],
        73,
        7,
        137,
        1,
        x,
        y,
    );
    if unit == seq!['%'] {
        ||| labels
        ||| char_covers('%', 162, 98, 1, x, y)
        ||| char_covers('%', 162, 157, 1, x, y)
        ||| text_covers(td, 157 - 24 * td.len(), 24, 76, 4, x, y)
        ||| text_covers(bd, 157 - 24 * bd.len(), 24, 136, 4, x, y)
    } else {
        let ux = 169 - 6 * unit.len();
        ||| labels
        ||| text_covers(unit, ux, 6, 98, 1, x, y)
        ||| text_covers(unit, ux, 6, 157, 1, x, y)
        ||| text_covers(td, ux - 5 - 24 * td.len(), 24, 76, 4, x, y)
        ||| text_covers(bd, ux - 5 - 24 * bd.len(), 24, 136, 4, x, y)
    }
}

/// The colour of pixel (`x`, `y`) in the dual-bar infographic: white text over a magenta lower
/// fill and a purple upper fill, over the two grey bar tracks, on black.
pub open spec fn dual_bars_pixel(top: BarReading, bot: BarReading, unit: Seq<char>, x: int, y: int) -> (
    u8,
    u8,
    u8,
    u8,
) {
    if bars_text_covers(top, bot, unit, x, y) {
        (255u8, 255u8, 255u8, 255u8)
    } else if in_rect(71, 123, bar_fill(bot), 9, x, y) {
        (215u8, 0u8, 192u8, 255u8)
    } else if in_rect(71, 108, bar_fill(top), 9, x, y) {
        (106u8, 0u8, 223u8, 255u8)
    } else if in_rect(71, 108, 98, 9, x, y) || in_rect(71, 123, 98, 9, x, y) {
        (137u8, 137u8, 137u8, 255u8)
    } else {
        (0u8, 0u8, 0u8, 255u8)
    }
}

/// Whether the unit and both readings fit to the left of the bars' right edge, as the
/// layout of a unit other than `%` needs.
pub open spec fn unit_fits(top: BarReading, bot: BarReading, unit: Seq<char>) -> bool {
    unit == seq!['%'] || (6 * unit.len() + 5 + 24 * reading_text(top.value).len() <= 169 && 6 * unit.len()
        + 5 + 24 * reading_text(bot.value).len() <= 169)
}

/// A reading is printed with at most three characters.
pub proof fn lemma_reading_text_len(value: Option<u32>)
    ensures
        reading_text(value).len() <= 3,
{
    if let Some(n) = value {
        lemma_decimal_len_bound(if n <= 100 { n as nat } else { 100nat });
    }
}

/// The characters printed for a reading.
pub fn reading_chars(value: Option<u32>) -> (v: Vec<char>)
    ensures
        v@ == reading_text(value),
        v@.len() <= 3,
{
    match value {
        Some(n) => {
            let capped = if n <= 100 { n } else { 100 };
            proof { lemma_decimal_len_bound(capped as nat); }
            decimal_chars(capped)
        },
        None => {
            let v = vec!['N', 'a', 'N'];
            assert(v@ =~= seq!['N', 'a', 'N']);
            v
        },
    }
}

fn is_percent(unit: &Vec<char>) -> (b: bool)
    ensures
        b == (unit@ == seq!['%']),
{
    if unit.len() == 1 && unit[0] == '%' {
        assert(unit@ =~= seq!['%']);
        true
    } else {
        false
    }
}

pub struct LcdFramebuffer {
    pub width: u32,
    pub height: u32,
    pub pixels: Vec<u8>,
}

/// Two states of a framebuffer with the same dimensions, each holding exactly four bytes per
/// pixel.
pub open spec fn same_shape(a: LcdFramebuffer, b: LcdFramebuffer) -> bool {
    &&& a.wf()
    &&& b.wf()
    &&& a.width == b.width
    &&& a.height == b.height
}

/// Step `i` of `states` (from `states[i]` to `states[i + 1]`) keeps the framebuffer's shape.
pub open spec fn shape_kept_at(states: Seq<LcdFramebuffer>, i: int) -> bool {
    same_shape(states[i], states[i + 1])
}

/// The framebuffer never changes size: in any run of calls that each keep the shape (as `clear`,
/// `clear_screen`, `set_pixel`, `draw_char`, `draw_string_centered` and every `render_*` method
/// state), starting from a well-formed `w`×`h` framebuffer such as `new(w, h)` returns, every
/// state has width `w`, height `h` and exactly `w * h * 4` bytes.
pub proof fn lemma_shape_is_kept(states: Seq<LcdFramebuffer>, w: u32, h: u32)
    requires
        states.len() > 0,
        states[0].wf(),
        states[0].width == w,
        states[0].height == h,
        forall|i: int| 0 <= i < states.len() - 1 ==> #[trigger] shape_kept_at(states, i),
    ensures
        forall|i: int|
            0 <= i < states.len() ==> #[trigger] states[i].width == w && states[i].height == h
                && states[i].pixels@.len() == w * h * 4,
    decreases states.len(),
{
    if states.len() > 1 {
        let prefix = states.drop_last();
        assert forall|i: int| 0 <= i < prefix.len() - 1 implies #[trigger] shape_kept_at(prefix, i) by {
            assert(shape_kept_at(states, i));
        }
        lemma_shape_is_kept(prefix, w, h);
        let n = states.len() - 1;
        assert(shape_kept_at(states, n - 1));
        assert(prefix[n - 1] == states[n - 1]);
        assert forall|i: int| 0 <= i < states.len() implies #[trigger] states[i].width == w && states[i].height == h
            && states[i].pixels@.len() == w * h * 4 by {
            if i < n {
                assert(prefix[i] == states[i]);
            }
        }
    }
}

/// What `draw_char` does: `after` has the shape of `before`, the pixels that glyph `ch` at
/// (`sx`, `sy`) and scale `scale` covers are opaque (`r`, `g`, `b`), and the others are as before.
pub open spec fn char_drawn(
    before: LcdFramebuffer,
    after: LcdFramebuffer,
    ch: char,
    sx: int,
    sy: int,
    scale: int,
    r: u8,
    g: u8,
    b: u8,
) -> bool {
    &&& same_shape(before, after)
    &&& forall|x: int, y: int|
        0 <= x < before.width && 0 <= y < before.height ==> #[trigger] after.px(x, y) == if char_covers(
            ch,
            sx,
            sy,
            scale,
            x,
            y,
        ) {
            (r, g, b, 255u8)
        } else {
            before.px(x, y)
        }
}

/// What `draw_string_centered` does: `after` has the shape of `before`, the pixels that the
/// characters of `s` cover, placed `6 * scale` apart from the centred start at row `cy`, are
/// opaque (`r`, `g`, `b`), and the others are as before.
pub open spec fn centered_drawn(
    before: LcdFramebuffer,
    after: LcdFramebuffer,
    s: Seq<char>,
    cy: int,
    scale: int,
    r: u8,
    g: u8,
    b: u8,
) -> bool {
    &&& same_shape(before, after)
    &&& forall|x: int, y: int|
        0 <= x < before.width && 0 <= y < before.height ==> #[trigger] after.px(x, y) == if text_covers(
            s,
            centered_start(before.width as int, s.len() * (6 * scale)),
            6 * scale,
            cy,
            scale,
            x,
            y,
        ) {
            (r, g, b, 255u8)
        } else {
            before.px(x, y)
        }
}

/// Step `i` of `steps` draws character `s[i]` at `sx + i * step`, row `sy`.
pub open spec fn char_step(
    steps: Seq<LcdFramebuffer>,
    s: Seq<char>,
    sx: int,
    step: int,
    sy: int,
    scale: int,
    r: u8,
    g: u8,
    b: u8,
    i: int,
) -> bool {
    char_drawn(steps[i], steps[i + 1], s[i], sx + i * step, sy, scale, r, g, b)
}

/// After the first `k` characters have been drawn in turn, the pixels the first `k` glyphs cover
/// have the colour and the rest are as in `steps[0]`.
proof fn lemma_chars_in_turn(
    steps: Seq<LcdFramebuffer>,
    s: Seq<char>,
    sx: int,
    step: int,
    sy: int,
    scale: int,
    r: u8,
    g: u8,
    b: u8,
    k: int,
)
    requires
        steps[0].wf(),
        0 <= k <= s.len(),
        steps.len() == s.len() + 1,
        forall|i: int| 0 <= i < s.len() ==> #[trigger] char_step(steps, s, sx, step, sy, scale, r, g, b, i),
    ensures
        same_shape(steps[0], steps[k]),
        forall|x: int, y: int|
            0 <= x < steps[0].width && 0 <= y < steps[0].height ==> #[trigger] steps[k].px(x, y) == if text_covers(
                s.take(k),
                sx,
                step,
                sy,
                scale,
                x,
                y,
            ) {
                (r, g, b, 255u8)
            } else {
                steps[0].px(x, y)
            },
    decreases k,
{
    if k == 0 {
        assert(s.take(0).len() == 0);
    } else {
        lemma_chars_in_turn(steps, s, sx, step, sy, scale, r, g, b, k - 1);
        assert(char_step(steps, s, sx, step, sy, scale, r, g, b, k - 1));
        assert(s.take(k).drop_last() =~= s.take(k - 1));
        assert(s.take(k).last() == s[k - 1]);
        assert forall|x: int, y: int|
            0 <= x < steps[0].width && 0 <= y < steps[0].height implies #[trigger] steps[k].px(x, y) == if text_covers(
                s.take(k),
                sx,
                step,
                sy,
                scale,
                x,
                y,
            ) {
                (r, g, b, 255u8)
            } else {
                steps[0].px(x, y)
            } by {
            assert(steps[k - 1].px(x, y) == steps[k - 1].px(x, y));
        }
    }
}

/// Two well-formed framebuffers of the same dimensions that agree on every pixel hold the same
/// bytes.
proof fn lemma_same_pixels_same_bytes(a: LcdFramebuffer, b: LcdFramebuffer)
    requires
        same_shape(a, b),
        forall|x: int, y: int| 0 <= x < a.width && 0 <= y < a.height ==> #[trigger] a.px(x, y) == b.px(x, y),
    ensures
        a.pixels@ == b.pixels@,
{
    let w = a.width as int;
    let h = a.height as int;
    assert forall|i: int| 0 <= i < a.pixels@.len() implies a.pixels@[i] == b.pixels@[i] by {
        let p = i / 4;
        let x = p % w;
        let y = p / w;
        assert(w > 0 && h > 0) by (nonlinear_arith)
            requires 0 <= i < w * h * 4, w >= 0, h >= 0;
        assert(0 <= p < w * h);
        assert(y * w + x == p) by (nonlinear_arith)
            requires x == p % w, y == p / w, w > 0;
        assert(0 <= x < w);
        assert(0 <= y < h) by (nonlinear_arith)
            requires y == p / w, 0 <= p < w * h, w > 0;
        assert(a.px(x, y) == b.px(x, y));
        assert(i == (y * w + x) * 4 + i % 4);
    }
    assert(a.pixels@ =~= b.pixels@);
}

/// Where the font lands: after `draw_char` (`char_drawn`), the `scale`×`scale` block of font
/// column `c` (counted from the left) and row `row` of the glyph of `ch` starts at
/// (`sx + c * scale`, `sy + row * scale`), and each of its pixels is lit exactly when bit `row`
/// of column byte `c` of the character's `FONT_5X7` entry is set, and is left as it was
/// otherwise. ASCII characters 32 to 126 use entry `ch - 32`, the degree signs entry 95.
pub proof fn lemma_glyph_layout(
    before: LcdFramebuffer,
    after: LcdFramebuffer,
    ch: char,
    sx: int,
    sy: int,
    scale: int,
    r: u8,
    g: u8,
    b: u8,
    c: int,
    row: int,
    dx: int,
    dy: int,
)
    requires
        char_drawn(before, after, ch, sx, sy, scale, r, g, b),
        (32 <= ch as u32 && ch as u32 <= 126) || ch == '\u{00B0}' || ch == '\u{00BA}',
        0 <= c < 5,
        0 <= row < 7,
        0 <= dx < scale,
        0 <= dy < scale,
        0 <= sx + c * scale + dx < before.width,
        0 <= sy + row * scale + dy < before.height,
    ensures
        ({
            let entry: int = if 32 <= ch as u32 && ch as u32 <= 126 { ch as u32 - 32 } else { 95 };
            let column: u8 = FONT_5X7@[entry]@[c];
            let x = sx + c * scale + dx;
            let y = sy + row * scale + dy;
            after.px(x, y) == if (column >> (row as u8)) & 1u8 == 1u8 {
                (r, g, b, 255u8)
            } else {
                before.px(x, y)
            }
        }),
{
    let x = sx + c * scale + dx;
    let y = sy + row * scale + dy;
    vstd::arithmetic::div_mod::lemma_fundamental_div_mod_converse_div(x - sx, scale, c, dx);
    vstd::arithmetic::div_mod::lemma_fundamental_div_mod_converse_div(y - sy, scale, row, dy);
    assert(c * scale + dx < 5 * scale) by (nonlinear_arith)
        requires 0 <= c < 5, 0 <= dx < scale;
    assert(row * scale + dy < 7 * scale) by (nonlinear_arith)
        requires 0 <= row < 7, 0 <= dy < scale;
    assert(0 <= c * scale) by (nonlinear_arith)
        requires 0 <= c, 0 <= dx < scale;
    assert(0 <= row * scale) by (nonlinear_arith)
        requires 0 <= row, 0 <= dy < scale;
    assert(after.px(x, y) == after.px(x, y));
}

/// In the dual-bar infographic (what `render_load`, `render_infographic`, `render_dual_bars`
/// and `render_active_infographic` draw), rows 76 to 103 belong to the upper (CPU) bar: they
/// do not depend on the lower reading at all.
pub proof fn lemma_upper_rows_ignore_lower_reading(
    top: BarReading,
    bot1: BarReading,
    bot2: BarReading,
    unit: Seq<char>,
    x: int,
    y: int,
)
    requires
        76 <= y < 104,
    ensures
        dual_bars_pixel(top, bot1, unit, x, y) == dual_bars_pixel(top, bot2, unit, x, y),
{
    let b1 = reading_text(bot1.value);
    let b2 = reading_text(bot2.value);
    lemma_text_rows(b1, 157 - 24 * b1.len(), 24, 136, 4, x, y);
    lemma_text_rows(b2, 157 - 24 * b2.len(), 24, 136, 4, x, y);
    let ux = 169 - 6 * unit.len();
    lemma_text_rows(b1, ux - 5 - 24 * b1.len(), 24, 136, 4, x, y);
    lemma_text_rows(b2, ux - 5 - 24 * b2.len(), 24, 136, 4, x, y);
}

/// In the dual-bar infographic, rows 136 to 163 belong to the lower (GPU) bar: they do not
/// depend on the upper reading at all.
pub proof fn lemma_lower_rows_ignore_upper_reading(
    top1: BarReading,
    top2: BarReading,
    bot: BarReading,
    unit: Seq<char>,
    x: int,
    y: int,
)
    requires
        136 <= y < 164,
    ensures
        dual_bars_pixel(top1, bot, unit, x, y) == dual_bars_pixel(top2, bot, unit, x, y),
{
    let t1 = reading_text(top1.value);
    let t2 = reading_text(top2.value);
    lemma_text_rows(t1, 157 - 24 * t1.len(), 24, 76, 4, x, y);
    lemma_text_rows(t2, 157 - 24 * t2.len(), 24, 76, 4, x, y);
    let ux = 169 - 6 * unit.len();
    lemma_text_rows(t1, ux - 5 - 24 * t1.len(), 24, 76, 4, x, y);
    lemma_text_rows(t2, ux - 5 - 24 * t2.len(), 24, 76, 4, x, y);
}

/// The bars of the dual-bar infographic: along the 98 pixels from column 71, rows 108 to 116
/// show the upper (CPU) reading as purple over its first `fill` pixels (at most all 98) and
/// grey track after them, and rows 123 to 131 show the lower (GPU) reading the same way in
/// magenta. No text reaches these rows.
pub proof fn lemma_bar_rows(top: BarReading, bot: BarReading, unit: Seq<char>, x: int, y: int)
    requires
        71 <= x < 169,
        (108 <= y < 117) || (123 <= y < 132),
    ensures
        108 <= y < 117 ==> dual_bars_pixel(top, bot, unit, x, y) == if x < 71 + (if top.fill <= 98 {
            top.fill as int
        } else {
            98
        }) {
            (106u8, 0u8, 223u8, 255u8)
        } else {
            (137u8, 137u8, 137u8, 255u8)
        },
        123 <= y < 132 ==> dual_bars_pixel(top, bot, unit, x, y) == if x < 71 + (if bot.fill <= 98 {
            bot.fill as int
        } else {
            98
        }) {
            (215u8, 0u8, 192u8, 255u8)
        } else {
            (137u8, 137u8, 137u8, 255u8)
        },
{
    let t = reading_text(top.value);
    let bt = reading_text(bot.value);
    let ux = 169 - 6 * unit.len();
    lemma_text_rows(t, 157 - 24 * t.len(), 24, 76, 4, x, y);
    lemma_text_rows(t, ux - 5 - 24 * t.len(), 24, 76, 4, x, y);
    lemma_text_rows(bt, 157 - 24 * bt.len(), 24, 136, 4, x, y);
    lemma_text_rows(bt, ux - 5 - 24 * bt.len(), 24, 136, 4, x, y);
    lemma_text_rows(seq!['C', 'P', 'U'], 73, 7, 96, 1, x, y);
    lemma_text_rows(seq!['G', 'P', 'U'], 73, 7, 137, 1, x, y);
    lemma_text_rows(unit, ux, 6, 98, 1, x, y);
    lemma_text_rows(unit, ux, 6, 157, 1, x, y);
}

/// The left edge of the large numeral printed for a reading of `len` characters: right-aligned
/// 12 pixels inside the bars' right edge for `%`, and 5 pixels left of a longer unit.
pub open spec fn numeral_left(unit: Seq<char>, len: int) -> int {
    if unit == seq!['%'] {
        157 - 24 * len
    } else {
        169 - 6 * unit.len() - 5 - 24 * len
    }
}

/// Above the labels and units (rows 76 to 95) the dual-bar infographic shows only the upper
/// reading's numeral, four times the font size with its top at row 76: a pixel there is white
/// exactly when that numeral covers it, and black otherwise.
pub proof fn lemma_upper_numeral(top: BarReading, bot: BarReading, unit: Seq<char>, x: int, y: int)
    requires
        76 <= y < 96,
    ensures
        dual_bars_pixel(top, bot, unit, x, y) == if text_covers(
            reading_text(top.value),
            numeral_left(unit, reading_text(top.value).len() as int),
            24,
            76,
            4,
            x,
            y,
        ) {
            (255u8, 255u8, 255u8, 255u8)
        } else {
            (0u8, 0u8, 0u8, 255u8)
        },
{
    let t = reading_text(top.value);
    let bt = reading_text(bot.value);
    let ux = 169 - 6 * unit.len();
    lemma_text_rows(bt, 157 - 24 * bt.len(), 24, 136, 4, x, y);
    lemma_text_rows(bt, ux - 5 - 24 * bt.len(), 24, 136, 4, x, y);
    lemma_text_rows(seq!['C', 'P', 'U'], 73, 7, 96, 1, x, y);
    lemma_text_rows(seq!['G', 'P', 'U'], 73, 7, 137, 1, x, y);
    lemma_text_rows(unit, ux, 6, 98, 1, x, y);
    lemma_text_rows(unit, ux, 6, 157, 1, x, y);
    lemma_text_rows(seq!['%'], 162, 1, 98, 1, x, y);
    lemma_text_rows(seq!['%'], 162, 1, 157, 1, x, y);
    reveal_with_fuel(text_covers, 2);
}

/// Between the `GPU` label and the lower unit (rows 144 to 156) the dual-bar infographic shows
/// only the lower reading's numeral, four times the font size with its top at row 136: a pixel
/// there is white exactly when that numeral covers it, and black otherwise.
pub proof fn lemma_lower_numeral(top: BarReading, bot: BarReading, unit: Seq<char>, x: int, y: int)
    requires
        144 <= y < 157,
    ensures
        dual_bars_pixel(top, bot, unit, x, y) == if text_covers(
            reading_text(bot.value),
            numeral_left(unit, reading_text(bot.value).len() as int),
            24,
            136,
            4,
            x,
            y,
        ) {
            (255u8, 255u8, 255u8, 255u8)
        } else {
            (0u8, 0u8, 0u8, 255u8)
        },
{
    let tt = reading_text(top.value);
    let ux = 169 - 6 * unit.len();
    lemma_text_rows(tt, 157 - 24 * tt.len(), 24, 76, 4, x, y);
    lemma_text_rows(tt, ux - 5 - 24 * tt.len(), 24, 76, 4, x, y);
    lemma_text_rows(seq!['C', 'P', 'U'], 73, 7, 96, 1, x, y);
    lemma_text_rows(seq!['G', 'P', 'U'], 73, 7, 137, 1, x, y);
    lemma_text_rows(unit, ux, 6, 98, 1, x, y);
    lemma_text_rows(unit, ux, 6, 157, 1, x, y);
    reveal_with_fuel(text_covers, 2);
}

/// Drawing a centred string is drawing its characters one after another: when `after` is what
/// `draw_string_centered` left of `before`, and `steps` starts from `before` and draws character
/// `i` of `s` at column `x0 + i * 6 * scale` (with `x0` the centred start), row `cy`, for each `i`
/// in turn, the last step holds exactly the bytes of `after`. In particular an empty string
/// changes nothing.
pub proof fn lemma_centered_string_is_its_chars(
    before: LcdFramebuffer,
    after: LcdFramebuffer,
    steps: Seq<LcdFramebuffer>,
    s: Seq<char>,
    cy: int,
    scale: int,
    r: u8,
    g: u8,
    b: u8,
)
    requires
        centered_drawn(before, after, s, cy, scale, r, g, b),
        steps.len() == s.len() + 1,
        steps[0] == before,
        forall|i: int|
            0 <= i < s.len() ==> #[trigger] char_step(
                steps,
                s,
                centered_start(before.width as int, s.len() * (6 * scale)),
                6 * scale,
                cy,
                scale,
                r,
                g,
                b,
                i,
            ),
    ensures
        steps[s.len() as int].width == after.width,
        steps[s.len() as int].height == after.height,
        steps[s.len() as int].pixels@ == after.pixels@,
{
    let x0 = centered_start(before.width as int, s.len() * (6 * scale));
    let n = s.len() as int;
    lemma_chars_in_turn(steps, s, x0, 6 * scale, cy, scale, r, g, b, n);
    assert(s.take(n) =~= s);
    lemma_same_pixels_same_bytes(steps[n], after);
}

impl LcdFramebuffer {
    /// The buffer holds exactly four bytes per pixel, and its size fits a `u32`.
    pub open spec fn wf(&self) -> bool {
        &&& self.width * self.height * 4 <= u32::MAX
        &&& self.pixels@.len() == self.width * self.height * 4
    }

    pub open spec fn px(&self, x: int, y: int) -> (u8, u8, u8, u8) {
        pixel_at(self.pixels@, self.width as int, x, y)
    }

    pub fn new(width: u32, height: u32) -> (fb: Self)
        requires
            width * height * 4 <= u32::MAX,
        ensures
            fb.wf(),
            fb.width == width,
            fb.height == height,
            forall|i: int| 0 <= i < fb.pixels@.len() ==> fb.pixels@[i] == 0,
    {
        let size = (width * height * 4) as usize;
        Self { width, height, pixels: vec![0u8; size] }
    }

    pub fn set_pixel(&mut self, x: u32, y: u32, r: u8, g: u8, b: u8, a: u8)
        requires
            old(self).wf(),
        ensures
            final(self).wf(),
            final(self).width == old(self).width,
            final(self).height == old(self).height,
            same_shape(*old(self), *final(self)),
            forall|x2: int, y2: int|
                0 <= x2 < old(self).width && 0 <= y2 < old(self).height ==> #[trigger] final(self).px(x2, y2)
                    == if x2 == x && y2 == y { (r, g, b, a) } else { old(self).px(x2, y2) },
    {
        if x < self.width && y < self.height {
            proof { lemma_pixel_offsets(self.width as int, self.height as int, x as int, y as int, 0, 0); }
            assert(y * self.width + x < self.width * self.height) by (nonlinear_arith)
                requires x < self.width, y < self.height;
            let idx = ((y * self.width + x) * 4) as usize;
            self.pixels.set(idx, r);
            self.pixels.set(idx + 1, g);
            self.pixels.set(idx + 2, b);
            self.pixels.set(idx + 3, a);
            assert forall|x2: int, y2: int|
                0 <= x2 < old(self).width && 0 <= y2 < old(self).height implies #[trigger] self.px(x2, y2)
                    == if x2 == x && y2 == y { (r, g, b, a) } else { old(self).px(x2, y2) } by {
                lemma_pixel_offsets(self.width as int, self.height as int, x2, y2, x as int, y as int);
            }
        }
    }

    /// Draws `ch` from the 5x7 font with its top-left corner at (`start_x`, `start_y`), each font
    /// dot a `scale`×`scale` block in opaque (`r`, `g`, `b`); dots off the surface are dropped and
    /// a character without a glyph draws nothing.
    pub fn draw_char(&mut self, ch: char, start_x: u32, start_y: u32, scale: u32, r: u8, g: u8, b: u8)
        requires
            old(self).wf(),
        ensures
            final(self).wf(),
            final(self).width == old(self).width,
            final(self).height == old(self).height,
            char_drawn(*old(self), *final(self), ch, start_x as int, start_y as int, scale as int, r, g, b),
            same_shape(*old(self), *final(self)),
            forall|x: int, y: int|
                0 <= x < old(self).width && 0 <= y < old(self).height ==> #[trigger] final(self).px(x, y)
                    == if char_covers(ch, start_x as int, start_y as int, scale as int, x, y) {
                    (r, g, b, 255u8)
                } else {
                    old(self).px(x, y)
                },
    {
        let gi = match glyph_index_of(ch) {
            Some(gi) => gi,
            None => return,
        };
        if scale == 0 {
            return;
        }
        let glyph = FONT_5X7[gi];
        let ghost old_fb = *old(self);
        let w = self.width as u64;
        let h = self.height as u64;
        let sx = start_x as u64;
        let sy = start_y as u64;
        let sc = scale as u64;
        let x_end = if sx + 5 * sc < w { sx + 5 * sc } else { w };
        let y_end = if sy + 7 * sc < h { sy + 7 * sc } else { h };
        let mut y = sy;
        while y < y_end
            invariant
                self.wf(),
                self.width == old_fb.width,
                self.height == old_fb.height,
                w == self.width,
                h == self.height,
                sx == start_x,
                sy == start_y,
                sc == scale,
                sc > 0,
                glyph@ == FONT_5X7@[gi as int]@,
                glyph_index(ch) == Some(gi as int),
                x_end <= w,
                x_end == sx + 5 * sc || x_end == w,
                x_end <= sx + 5 * sc,
                y_end <= h,
                y_end == sy + 7 * sc || y_end == h,
                y_end <= sy + 7 * sc,
                sy <= y,
                y <= y_end || y == sy,
                forall|x2: int, y2: int|
                    0 <= x2 < w && 0 <= y2 < h ==> #[trigger] self.px(x2, y2) == if y2 < y
                        && char_covers(ch, start_x as int, start_y as int, scale as int, x2, y2) {
                        (r, g, b, 255u8)
                    } else {
                        old_fb.px(x2, y2)
                    },
            decreases y_end - y,
        {
            let row = (y - sy) / sc;
            assert(row < 7) by (nonlinear_arith)
                requires row == (y - sy) / (sc as int), y < sy + 7 * sc, sy <= y, sc > 0;
            let mut x = sx;
            while x < x_end
                invariant
                    self.wf(),
                    self.width == old_fb.width,
                    self.height == old_fb.height,
                    w == self.width,
                    h == self.height,
                    sx == start_x,
                    sy == start_y,
                    sc == scale,
                    sc > 0,
                    glyph@ == FONT_5X7@[gi as int]@,
                    glyph_index(ch) == Some(gi as int),
                    x_end <= w,
                    x_end == sx + 5 * sc || x_end == w,
                    x_end <= sx + 5 * sc,
                x_end <= sx + 5 * sc,
                    sy <= y < y_end,
                    y_end <= h,
                    y_end == sy + 7 * sc || y_end == h,
                    y_end <= sy + 7 * sc,
                y_end <= sy + 7 * sc,
                    row == (y - sy) / (sc as int),
                    row < 7,
                    sx <= x,
                    x <= x_end || x == sx,
                    forall|x2: int, y2: int|
                        0 <= x2 < w && 0 <= y2 < h ==> #[trigger] self.px(x2, y2) == if (y2 < y || (y2 == y
                            && x2 < x)) && char_covers(ch, start_x as int, start_y as int, scale as int, x2, y2) {
                            (r, g, b, 255u8)
                        } else {
                            old_fb.px(x2, y2)
                        },
                decreases x_end - x,
            {
                let col = (x - sx) / sc;
                assert(col < 5) by (nonlinear_arith)
                    requires col == (x - sx) / (sc as int), x < sx + 5 * sc, sx <= x, sc > 0;
                let lit = (glyph[col as usize] >> (row as u8)) & 1u8 == 1u8;
                if lit {
                    self.set_pixel(x as u32, y as u32, r, g, b, 255);
                }
                assert forall|x2: int, y2: int|
                    0 <= x2 < w && 0 <= y2 < h implies #[trigger] self.px(x2, y2) == if (y2 < y || (y2 == y
                        && x2 < x + 1)) && char_covers(ch, start_x as int, start_y as int, scale as int, x2, y2) {
                        (r, g, b, 255u8)
                    } else {
                        old_fb.px(x2, y2)
                    } by {
                    if x2 == x && y2 == y {
                        assert(char_covers(ch, start_x as int, start_y as int, scale as int, x2, y2) == lit);
                    }
                }
                x = x + 1;
            }
            assert forall|x2: int, y2: int|
                0 <= x2 < w && 0 <= y2 < h implies #[trigger] self.px(x2, y2) == if y2 < y + 1
                    && char_covers(ch, start_x as int, start_y as int, scale as int, x2, y2) {
                    (r, g, b, 255u8)
                } else {
                    old_fb.px(x2, y2)
                } by {
                if y2 == y && x2 >= x {
                    assert(!char_covers(ch, start_x as int, start_y as int, scale as int, x2, y2));
                }
            }
            y = y + 1;
        }
        assert forall|x2: int, y2: int|
            0 <= x2 < w && 0 <= y2 < h implies #[trigger] self.px(x2, y2) == if char_covers(
                ch, start_x as int, start_y as int, scale as int, x2, y2) {
                (r, g, b, 255u8)
            } else {
                old_fb.px(x2, y2)
            } by {
            if y2 >= y {
                assert(!char_covers(ch, start_x as int, start_y as int, scale as int, x2, y2));
            }
        }
    }

    /// Paints every whole pixel opaque (`r`, `g`, `b`); trailing bytes that do not make up a
    /// whole pixel are left alone.
    pub fn clear(&mut self, r: u8, g: u8, b: u8)
        ensures
            final(self).width == old(self).width,
            final(self).height == old(self).height,
            final(self).pixels@.len() == old(self).pixels@.len(),
            forall|i: int|
                0 <= i < old(self).pixels@.len() - old(self).pixels@.len() % 4 ==> #[trigger] final(self).pixels@[i]
                    == cleared_byte(i, r, g, b),
            forall|i: int|
                old(self).pixels@.len() - old(self).pixels@.len() % 4 <= i < old(self).pixels@.len()
                    ==> #[trigger] final(self).pixels@[i] == old(self).pixels@[i],
            old(self).wf() ==> final(self).wf(),
            old(self).wf() ==> same_shape(*old(self), *final(self)),
            old(self).wf() ==> forall|x: int, y: int|
                0 <= x < old(self).width && 0 <= y < old(self).height ==> #[trigger] final(self).px(x, y)
                    == (r, g, b, 255u8),
    {
        let ghost old_fb = *old(self);
        let n = self.pixels.len();
        let chunks = n / 4;
        let mut k: usize = 0;
        while k < chunks
            invariant
                self.width == old_fb.width,
                self.height == old_fb.height,
                n == old_fb.pixels@.len(),
                self.pixels@.len() == n,
                chunks == n / 4,
                k <= chunks,
                forall|i: int| 0 <= i < 4 * k ==> #[trigger] self.pixels@[i] == cleared_byte(i, r, g, b),
                forall|i: int| 4 * k <= i < n ==> #[trigger] self.pixels@[i] == old_fb.pixels@[i],
            decreases chunks - k,
        {
            let base = 4 * k;
            self.pixels.set(base, r);
            self.pixels.set(base + 1, g);
            self.pixels.set(base + 2, b);
            self.pixels.set(base + 3, 255);
            assert forall|i: int| 0 <= i < 4 * (k + 1) implies #[trigger] self.pixels@[i] == cleared_byte(i, r, g, b) by {
                if i >= 4 * k {
                    assert(i % 4 == i - 4 * k);
                }
            }
            k = k + 1;
        }
        assert(4 * chunks == n - n % 4);
        proof {
            if old_fb.wf() {
                let w = old_fb.width as int;
                let h = old_fb.height as int;
                assert(n % 4 == 0) by {
                    assert(n == (w * h) * 4) by (nonlinear_arith)
                        requires n == w * h * 4;
                }
                assert forall|x: int, y: int| 0 <= x < w && 0 <= y < h implies #[trigger] self.px(x, y)
                    == (r, g, b, 255u8) by {
                    lemma_pixel_offsets(w, h, x, y, 0, 0);
                    let i = (y * w + x) * 4;
                    assert(i % 4 == 0);
                    assert((i + 1) % 4 == 1);
                    assert((i + 2) % 4 == 2);
                    assert((i + 3) % 4 == 3);
                }
            }
        }
    }

    /// Paints every pixel opaque black.
    pub fn clear_screen(&mut self)
        ensures
            final(self).width == old(self).width,
            final(self).height == old(self).height,
            final(self).pixels@.len() == old(self).pixels@.len(),
            forall|i: int|
                0 <= i < old(self).pixels@.len() - old(self).pixels@.len() % 4 ==> #[trigger] final(self).pixels@[i]
                    == cleared_byte(i, 0, 0, 0),
            forall|i: int|
                old(self).pixels@.len() - old(self).pixels@.len() % 4 <= i < old(self).pixels@.len()
                    ==> #[trigger] final(self).pixels@[i] == old(self).pixels@[i],
            old(self).wf() ==> final(self).wf(),
            old(self).wf() ==> same_shape(*old(self), *final(self)),
            old(self).wf() ==> forall|x: int, y: int|
                0 <= x < old(self).width && 0 <= y < old(self).height ==> #[trigger] final(self).px(x, y)
                    == (0u8, 0u8, 0u8, 255u8),
    {
        self.clear(0, 0, 0);
    }

    /// Paints the pixels of the `rw`×`rh` rectangle at (`x0`, `y0`) that lie on the surface.
    fn fill_rect(&mut self, x0: u32, y0: u32, rw: u32, rh: u32, r: u8, g: u8, b: u8)
        requires
            old(self).wf(),
        ensures
            final(self).wf(),
            final(self).width == old(self).width,
            final(self).height == old(self).height,
            forall|x: int, y: int|
                0 <= x < old(self).width && 0 <= y < old(self).height ==> #[trigger] final(self).px(x, y)
                    == if in_rect(x0 as int, y0 as int, rw as int, rh as int, x, y) {
                    (r, g, b, 255u8)
                } else {
                    old(self).px(x, y)
                },
    {
        let ghost old_fb = *old(self);
        let w = self.width as u64;
        let h = self.height as u64;
        let x_end = if (x0 as u64) + (rw as u64) < w { (x0 as u64) + (rw as u64) } else { w };
        let y_end = if (y0 as u64) + (rh as u64) < h { (y0 as u64) + (rh as u64) } else { h };
        let mut y = y0 as u64;
        while y < y_end
            invariant
                self.wf(),
                self.width == old_fb.width,
                self.height == old_fb.height,
                w == self.width,
                h == self.height,
                x_end <= w,
                x_end <= x0 + rw,
                x_end == x0 + rw || x_end == w,
                y_end <= h,
                y_end <= y0 + rh,
                y_end == y0 + rh || y_end == h,
                y0 <= y,
                y <= y_end || y == y0,
                forall|x2: int, y2: int|
                    0 <= x2 < w && 0 <= y2 < h ==> #[trigger] self.px(x2, y2) == if y2 < y && in_rect(
                        x0 as int,
                        y0 as int,
                        rw as int,
                        rh as int,
                        x2,
                        y2,
                    ) {
                        (r, g, b, 255u8)
                    } else {
                        old_fb.px(x2, y2)
                    },
            decreases y_end - y,
        {
            let mut x = x0 as u64;
            while x < x_end
                invariant
                    self.wf(),
                    self.width == old_fb.width,
                    self.height == old_fb.height,
                    w == self.width,
                    h == self.height,
                    x_end <= w,
                    x_end <= x0 + rw,
                    x_end == x0 + rw || x_end == w,
                    y_end <= h,
                    y_end <= y0 + rh,
                    y0 <= y < y_end,
                    x0 <= x,
                    x <= x_end || x == x0,
                    forall|x2: int, y2: int|
                        0 <= x2 < w && 0 <= y2 < h ==> #[trigger] self.px(x2, y2) == if (y2 < y || (y2 == y
                            && x2 < x)) && in_rect(x0 as int, y0 as int, rw as int, rh as int, x2, y2) {
                            (r, g, b, 255u8)
                        } else {
                            old_fb.px(x2, y2)
                        },
                decreases x_end - x,
            {
                self.set_pixel(x as u32, y as u32, r, g, b, 255);
                x = x + 1;
            }
            y = y + 1;
        }
    }

    /// Draws the characters `cs`, the `i`-th with its top-left corner at (`sx + i * step`, `sy`).
    fn draw_chars(&mut self, cs: &Vec<char>, sx: u64, step: u64, sy: u32, scale: u32, r: u8, g: u8, b: u8)
        requires
            old(self).wf(),
        ensures
            final(self).wf(),
            final(self).width == old(self).width,
            final(self).height == old(self).height,
            forall|x: int, y: int|
                0 <= x < old(self).width && 0 <= y < old(self).height ==> #[trigger] final(self).px(x, y)
                    == if text_covers(cs@, sx as int, step as int, sy as int, scale as int, x, y) {
                    (r, g, b, 255u8)
                } else {
                    old(self).px(x, y)
                },
    {
        let ghost old_fb = *old(self);
        let n = cs.len();
        let mut i: usize = 0;
        while i < n
            invariant
                self.wf(),
                self.width == old_fb.width,
                self.height == old_fb.height,
                n == cs@.len(),
                i <= n,
                forall|x: int, y: int|
                    0 <= x < old_fb.width && 0 <= y < old_fb.height ==> #[trigger] self.px(x, y)
                        == if text_covers(cs@.take(i as int), sx as int, step as int, sy as int, scale as int, x, y) {
                        (r, g, b, 255u8)
                    } else {
                        old_fb.px(x, y)
                    },
            decreases n - i,
        {
            let ghost before = *self;
            assert((i as int) * (step as int) <= 0xFFFF_FFFF_FFFF_FFFFint * 0xFFFF_FFFF_FFFF_FFFFint) by (nonlinear_arith)
                requires 0 <= i <= 0xFFFF_FFFF_FFFF_FFFFint, 0 <= step <= 0xFFFF_FFFF_FFFF_FFFFint;
            let pos: u128 = (sx as u128) + (i as u128) * (step as u128);
            if pos <= 0xFFFF_FFFFu128 {
                self.draw_char(cs[i], pos as u32, sy, scale, r, g, b);
            } else {
                assert forall|x: int, y: int| 0 <= x < old_fb.width && 0 <= y < old_fb.height implies
                    !char_covers(cs@[i as int], pos as int, sy as int, scale as int, x, y) by {}
            }
            assert(cs@.take(i + 1).drop_last() =~= cs@.take(i as int));
            i = i + 1;
        }
        assert(cs@.take(n as int) =~= cs@);
    }

    /// Draws `s` on one line with its top edge at row `cy`, centred across the surface; each
    /// character takes `6 * scale` pixels, and a line too wide for the surface starts at its left
    /// edge.
    pub fn draw_string_centered(&mut self, s: &str, cy: u32, scale: u32, r: u8, g: u8, b: u8)
        requires
            old(self).wf(),
        ensures
            final(self).wf(),
            final(self).width == old(self).width,
            final(self).height == old(self).height,
            centered_drawn(*old(self), *final(self), s@, cy as int, scale as int, r, g, b),
            same_shape(*old(self), *final(self)),
            forall|x: int, y: int|
                0 <= x < old(self).width && 0 <= y < old(self).height ==> #[trigger] final(self).px(x, y)
                    == if text_covers(
                    s@,
                    centered_start(old(self).width as int, s@.len() * (6 * scale)),
                    6 * scale,
                    cy as int,
                    scale as int,
                    x,
                    y,
                ) {
                    (r, g, b, 255u8)
                } else {
                    old(self).px(x, y)
                },
    {
        let cs = str_chars(s);
        let n = cs.len();
        let char_w: u64 = 6 * (scale as u64);
        assert((n as int) * (char_w as int) <= 0xFFFF_FFFF_FFFF_FFFFint * 0x6_0000_0000int) by (nonlinear_arith)
            requires 0 <= n <= 0xFFFF_FFFF_FFFF_FFFFint, 0 <= char_w <= 0x6_0000_0000int;
        let total_w: u128 = (n as u128) * (char_w as u128);
        let start_x: u64 = if total_w < (self.width as u128) {
            ((self.width as u128 - total_w) / 2) as u64
        } else {
            0
        };
        self.draw_chars(&cs, start_x, char_w, cy, scale, r, g, b);
    }

    /// Draws the labels, units and readings of the dual-bar infographic in white.
    fn draw_bar_text(&mut self, top: BarReading, bot: BarReading, unit: &Vec<char>)
        requires
            old(self).wf(),
            unit_fits(top, bot, unit@),
        ensures
            final(self).wf(),
            final(self).width == old(self).width,
            final(self).height == old(self).height,
            forall|x: int, y: int|
                0 <= x < old(self).width && 0 <= y < old(self).height ==> #[trigger] final(self).px(x, y)
                    == if bars_text_covers(top, bot, unit@, x, y) {
                    (255u8, 255u8, 255u8, 255u8)
                } else {
                    old(self).px(x, y)
                },
    {
        let cpu_label = vec!['C', 'P', 'U'];
        let gpu_label = vec!['G', 'P', 'U'];
        assert(cpu_label@ =~= seq!['C', 'P', 'U']);
        assert(gpu_label@ =~= seq!['G', 'P', 'U']);
        self.draw_chars(&cpu_label, 73, 7, 96, 1, 255, 255, 255);
        self.draw_chars(&gpu_label, 73, 7, 137, 1, 255, 255, 255);
        let td = reading_chars(top.value);
        let bd = reading_chars(bot.value);
        if is_percent(unit) {
            self.draw_char('%', 162, 98, 1, 255, 255, 255);
            self.draw_char('%', 162, 157, 1, 255, 255, 255);
            self.draw_chars(&td, 157 - 24 * (td.len() as u64), 24, 76, 4, 255, 255, 255);
            self.draw_chars(&bd, 157 - 24 * (bd.len() as u64), 24, 136, 4, 255, 255, 255);
        } else {
            let ux: u64 = 169 - 6 * (unit.len() as u64);
            self.draw_chars(unit, ux, 6, 98, 1, 255, 255, 255);
            self.draw_chars(unit, ux, 6, 157, 1, 255, 255, 255);
            self.draw_chars(&td, ux - 5 - 24 * (td.len() as u64), 24, 76, 4, 255, 255, 255);
            self.draw_chars(&bd, ux - 5 - 24 * (bd.len() as u64), 24, 136, 4, 255, 255, 255);
        }
    }

    fn render_bars(&mut self, top: BarReading, bot: BarReading, unit: &Vec<char>)
        requires
            old(self).wf(),
            unit_fits(top, bot, unit@),
        ensures
            final(self).wf(),
            final(self).width == old(self).width,
            final(self).height == old(self).height,
            forall|x: int, y: int|
                0 <= x < old(self).width && 0 <= y < old(self).height ==> #[trigger] final(self).px(x, y)
                    == dual_bars_pixel(top, bot, unit@, x, y),
    {
        self.clear(0, 0, 0);
        self.fill_rect(BAR_X, CPU_BAR_Y, BAR_WIDTH, BAR_HEIGHT, 137, 137, 137);
        self.fill_rect(BAR_X, GPU_BAR_Y, BAR_WIDTH, BAR_HEIGHT, 137, 137, 137);
        let top_fill = if top.fill <= BAR_WIDTH { top.fill } else { BAR_WIDTH };
        let bot_fill = if bot.fill <= BAR_WIDTH { bot.fill } else { BAR_WIDTH };
        self.fill_rect(BAR_X, CPU_BAR_Y, top_fill, BAR_HEIGHT, 106, 0, 223);
        self.fill_rect(BAR_X, GPU_BAR_Y, bot_fill, BAR_HEIGHT, 215, 0, 192);
        self.draw_bar_text(top, bot, unit);
    }

    /// Renders the dual-bar infographic: the surface is cleared to black, then the two bar
    /// tracks, their fills, the labels, the unit and the two readings are drawn.
    pub fn render_dual_bars(&mut self, top_val: BarReading, bot_val: BarReading, unit: &str)
        requires
            old(self).wf(),
            unit_fits(top_val, bot_val, unit@),
        ensures
            final(self).wf(),
            final(self).width == old(self).width,
            final(self).height == old(self).height,
            same_shape(*old(self), *final(self)),
            forall|x: int, y: int|
                0 <= x < old(self).width && 0 <= y < old(self).height ==> #[trigger] final(self).px(x, y)
                    == dual_bars_pixel(top_val, bot_val, unit@, x, y),
    {
        let u = str_chars(unit);
        self.render_bars(top_val, bot_val, &u);
    }

    /// Renders the dual-bar infographic of CPU and GPU temperatures in degrees Celsius.
    pub fn render_infographic(&mut self, cpu_temp: BarReading, gpu_temp: BarReading, _liquid_temp: BarReading)
        requires
            old(self).wf(),
        ensures
            final(self).wf(),
            final(self).width == old(self).width,
            final(self).height == old(self).height,
            same_shape(*old(self), *final(self)),
            forall|x: int, y: int|
                0 <= x < old(self).width && 0 <= y < old(self).height ==> #[trigger] final(self).px(x, y)
                    == dual_bars_pixel(cpu_temp, gpu_temp, seq!['\u{00B0}', 'C'], x, y),
    {
        let unit = vec!['\u{00B0}', 'C'];
        assert(unit@ =~= seq!['\u{00B0}', 'C']);
        proof {
            lemma_reading_text_len(cpu_temp.value);
            lemma_reading_text_len(gpu_temp.value);
        }
        self.render_bars(cpu_temp, gpu_temp, &unit);
    }

    /// Renders the dual-bar infographic of CPU and GPU load in percent.
    pub fn render_load(&mut self, cpu_usage: BarReading, gpu_usage: BarReading)
        requires
            old(self).wf(),
        ensures
            final(self).wf(),
            final(self).width == old(self).width,
            final(self).height == old(self).height,
            same_shape(*old(self), *final(self)),
            forall|x: int, y: int|
                0 <= x < old(self).width && 0 <= y < old(self).height ==> #[trigger] final(self).px(x, y)
                    == dual_bars_pixel(cpu_usage, gpu_usage, seq!['%'], x, y),
    {
        let unit = vec!['%'];
        assert(unit@ =~= seq!['%']);
        self.render_bars(cpu_usage, gpu_usage, &unit);
    }

    /// Renders `infographic`: the load bars or the temperature bars.
    pub fn render_active_infographic(
        &mut self,
        infographic: InfographicType,
        cpu_usage: BarReading,
        gpu_usage: BarReading,
        cpu_temp: BarReading,
        gpu_temp: BarReading,
        liquid_temp: BarReading,
    )
        requires
            old(self).wf(),
        ensures
            final(self).wf(),
            final(self).width == old(self).width,
            final(self).height == old(self).height,
            same_shape(*old(self), *final(self)),
            forall|x: int, y: int|
                0 <= x < old(self).width && 0 <= y < old(self).height ==> #[trigger] final(self).px(x, y)
                    == match infographic {
                    InfographicType::CpuGpuLoad => dual_bars_pixel(cpu_usage, gpu_usage, seq!['%'], x, y),
                    InfographicType::CpuGpuTemperature => dual_bars_pixel(
                        cpu_temp,
                        gpu_temp,
                        seq!['\u{00B0}', 'C'],
                        x,
                        y,
                    ),
                },
    {
        match infographic {
            InfographicType::CpuGpuLoad => self.render_load(cpu_usage, gpu_usage),
            InfographicType::CpuGpuTemperature => {
                self.render_infographic(cpu_temp, gpu_temp, liquid_temp);
            },
        }
    }
}

} // verus!
