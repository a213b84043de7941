use vstd::prelude::*;
use vstd::slice::{slice_subrange, slice_to_vec};
use crate::nzxt::lcd::{LcdError, elapsed_since};

verus! {

/// The two bytes the Kraken LCD takes for an RGBA pixel: 5 bits of red, 6 of green and 5 of
/// blue, high byte first.
pub open spec fn rgb565_bytes(r: u8, g: u8, b: u8) -> (u8, u8) {
    let r5 = (r >> 3u8) as u16;
    let g6 = (g >> 2u8) as u16;
    let b5 = (b >> 3u8) as u16;
    (((r5 << 3u16) | (g6 >> 3u16)) as u8, (((g6 & 7u16) << 5u16) | b5) as u8)
}

/// RGB565 keeps the top five bits of red and blue and the top six of green, and they can be
/// read back from the two bytes.
proof fn lemma_rgb565_bits(r: u8, g: u8, b: u8)
    by (bit_vector)
    ensures
        (((((r >> 3u8) as u16) << 3u16) | (((g >> 2u8) as u16) >> 3u16)) as u8) & 0xF8u8 == r & 0xF8u8,
        ((((((r >> 3u8) as u16) << 3u16) | (((g >> 2u8) as u16) >> 3u16)) as u8) & 7u8) << 3u8 | ((((((g
            >> 2u8) as u16) & 7u16) << 5u16) | ((b >> 3u8) as u16)) as u8) >> 5u8 == g >> 2u8,
        ((((((g >> 2u8) as u16) & 7u16) << 5u16) | ((b >> 3u8) as u16)) as u8) & 0x1Fu8 == b >> 3u8,
{
}

/// RGB565 keeps the top five bits of red and blue and the top six of green, and they can be
/// read back from the two bytes.
pub proof fn lemma_rgb565_keeps_high_bits(r: u8, g: u8, b: u8)
    ensures
        rgb565_bytes(r, g, b).0 & 0xF8u8 == r & 0xF8u8,
        ((rgb565_bytes(r, g, b).0 & 7u8) << 3u8) | (rgb565_bytes(r, g, b).1 >> 5u8) == g >> 2u8,
        rgb565_bytes(r, g, b).1 & 0x1Fu8 == b >> 3u8,
{
    lemma_rgb565_bits(r, g, b);
}

/// The RGB565 form of an RGBA buffer: two bytes per whole pixel, in order.
pub open spec fn rgb565_frame(rgba: Seq<u8>) -> Seq<u8> {
    Seq::new(
        2 * (rgba.len() / 4),
        |i: int|
            {
                let k = i / 2;
                let p = rgb565_bytes(rgba[4 * k], rgba[4 * k + 1], rgba[4 * k + 2]);
                if i % 2 == 0 {
                    p.0
                } else {
                    p.1
                }
            },
    )
}

fn rgb565_pair(r: u8, g: u8, b: u8) -> (p: (u8, u8))
    ensures
        p == rgb565_bytes(r, g, b),
{
    let r5 = (r >> 3) as u16;
    let g6 = (g >> 2) as u16;
    let b5 = (b >> 3) as u16;
    let byte0 = ((r5 << 3) | (g6 >> 3)) as u8;
    let byte1 = (((g6 & 0x07) << 5) | b5) as u8;
    (byte0, byte1)
}

/// Converts an RGBA buffer to the RGB565 bytes the Kraken LCD takes; bytes after the last
/// whole pixel are ignored. `width` and `height` only size the output's first allocation.
pub fn rgba_to_rgb565(rgba: &[u8], width: usize, height: usize) -> (out: Vec<u8>)
    ensures
        out@ == rgb565_frame(rgba@),
{
    let len = rgba.len();
    let n = len / 4;
    let mut out: Vec<u8> = Vec::new();
    let mut k: usize = 0;
    while k < n
        invariant
            len == rgba@.len(),
            n == rgba@.len() / 4,
            k <= n,
            out@.len() == 2 * k,
            forall|i: int| 0 <= i < 2 * k ==> #[trigger] out@[i] == rgb565_frame(rgba@)[i],
        decreases n - k,
    {
        assert(4 * k + 3 < len) by (nonlinear_arith)
            requires k < n, n == len / 4;
        let (byte0, byte1) = rgb565_pair(rgba[4 * k], rgba[4 * k + 1], rgba[4 * k + 2]);
        out.push(byte0);
        out.push(byte1);
        assert forall|i: int| 0 <= i < 2 * (k + 1) implies #[trigger] out@[i] == rgb565_frame(rgba@)[i] by {
            if i >= 2 * k {
                assert(i / 2 == k);
            }
        }
        k = k + 1;
    }
    assert(out@ =~= rgb565_frame(rgba@));
    out
}

/// The four bytes of `n`, least significant first.
pub open spec fn le_bytes_u32(n: u32) -> Seq<u8> {
    seq![(n & 0xFF) as u8, ((n >> 8u32) & 0xFF) as u8, ((n >> 16u32) & 0xFF) as u8, ((n >> 24u32) & 0xFF) as u8]
}

/// The 20-byte header that precedes an image on the LCD's bulk pipe: a fixed 16-byte preamble,
/// then the payload length in bytes (taken modulo 2^32), least significant byte first.
pub open spec fn bulk_header_bytes(payload_len: nat) -> Seq<u8> {
    seq![0x12u8, 0xFA, 0x01, 0xE8, 0xAB, 0xCD, 0xEF, 0x98, 0x76, 0x54, 0x32, 0x10, 0x06, 0x00, 0x00, 0x00]
        + le_bytes_u32((payload_len % 0x1_0000_0000) as u32)
}

/// The header for a bulk transfer of `payload_len` bytes.
pub fn bulk_header(payload_len: usize) -> (h: Vec<u8>)
    ensures
        h@ == bulk_header_bytes(payload_len as nat),
{
    let n = payload_len as u32;
    assert(n == (payload_len as nat % 0x1_0000_0000) as u32) by (bit_vector)
        requires n == payload_len as u32;
    let h = vec![
        0x12u8, 0xFA, 0x01, 0xE8, 0xAB, 0xCD, 0xEF, 0x98, 0x76, 0x54, 0x32, 0x10, 0x06, 0x00, 0x00, 0x00,
        (n & 0xFF) as u8, ((n >> 8) & 0xFF) as u8, ((n >> 16) & 0xFF) as u8, ((n >> 24) & 0xFF) as u8,
    ];
    assert(h@ =~= bulk_header_bytes(payload_len as nat));
    h
}

proof fn lemma_le_bytes_u32_bits(n: u32)
    by (bit_vector)
    ensures
        (((n & 0xFF) as u8) as u32) | (((((n >> 8u32) & 0xFF) as u8) as u32) << 8u32) | (((((n >> 16u32) & 0xFF)
            as u8) as u32) << 16u32) | (((((n >> 24u32) & 0xFF) as u8) as u32) << 24u32) == n,
{
}

/// The payload length can be read back from bytes 16 to 19 of the header.
pub proof fn lemma_bulk_header_length(payload_len: nat)
    ensures
        bulk_header_bytes(payload_len).len() == 20,
        ({
            let h = bulk_header_bytes(payload_len);
            (h[16] as u32) | ((h[17] as u32) << 8u32) | ((h[18] as u32) << 16u32) | ((h[19] as u32) << 24u32)
                == (payload_len % 0x1_0000_0000) as u32
        }),
{
    let n = (payload_len % 0x1_0000_0000) as u32;
    lemma_le_bytes_u32_bits(n);
}

/// A 64-byte HID report that starts with `prefix` and is zero after it.
pub open spec fn hid_report(prefix: Seq<u8>) -> Seq<u8> {
    Seq::new(64, |i: int| if i < prefix.len() { prefix[i] } else { 0u8 })
}

fn report_with_prefix(prefix: &Vec<u8>) -> (r: Vec<u8>)
    requires
        prefix@.len() <= 64,
    ensures
        r@ == hid_report(prefix@),
{
    let mut r = vec![0u8; 64];
    let mut i: usize = 0;
    while i < prefix.len()
        invariant
            prefix@.len() <= 64,
            i <= prefix@.len(),
            r@.len() == 64,
            forall|j: int| 0 <= j < 64 ==> #[trigger] r@[j] == if j < i { prefix@[j] } else { 0u8 },
        decreases prefix@.len() - i,
    {
        r.set(i, prefix[i]);
        i = i + 1;
    }
    assert(r@ =~= hid_report(prefix@));
    r
}

/// The HID report that announces an image transfer to the LCD.
pub fn start_transfer_report() -> (r: Vec<u8>)
    ensures
        r@ == hid_report(seq![0x36u8, 0x01, 0x00, 0x01, 0x06]),
{
    let prefix = vec![0x36u8, 0x01, 0x00, 0x01, 0x06];
    assert(prefix@ =~= seq![0x36u8, 0x01, 0x00, 0x01, 0x06]);
    report_with_prefix(&prefix)
}

/// The HID report that ends an image transfer.
pub fn end_transfer_report() -> (r: Vec<u8>)
    ensures
        r@ == hid_report(seq![0x36u8, 0x02]),
{
    let prefix = vec![0x36u8, 0x02];
    assert(prefix@ =~= seq![0x36u8, 0x02]);
    report_with_prefix(&prefix)
}

/// Size of the pieces an image payload is written to the bulk pipe in.
pub const BULK_CHUNK: usize = 4096;

/// How many pieces of at most `BULK_CHUNK` bytes an image payload of `len` bytes is written in.
pub open spec fn bulk_piece_count(len: nat) -> nat {
    len / (BULK_CHUNK as nat) + if len % (BULK_CHUNK as nat) == 0 { 0nat } else { 1nat }
}

/// Piece `k` of `payload`: the bytes from `k * BULK_CHUNK` up to the next multiple of
/// `BULK_CHUNK` or the end of the payload, whichever comes first.
pub open spec fn bulk_piece(payload: Seq<u8>, k: int) -> Seq<u8> {
    let start = k * BULK_CHUNK;
    let end = if start + BULK_CHUNK <= payload.len() { start + BULK_CHUNK } else { payload.len() as int };
    payload.subrange(start, end)
}

/// The writes that send one image to the bulk pipe, in order: the header announcing the
/// payload's length, then the payload in `BULK_CHUNK`-byte pieces (the last one possibly
/// shorter).
pub fn bulk_writes(payload: &[u8]) -> (w: Vec<Vec<u8>>)
    ensures
        w@.len() == 1 + bulk_piece_count(payload@.len()),
        w@[0]@ == bulk_header_bytes(payload@.len()),
        forall|i: int| 1 <= i < w@.len() ==> #[trigger] w@[i]@ == bulk_piece(payload@, i - 1),
{
    let len = payload.len();
    let count = len / BULK_CHUNK + if len % BULK_CHUNK == 0 { 0 } else { 1 };
    let mut w: Vec<Vec<u8>> = Vec::new();
    w.push(bulk_header(len));
    let mut k: usize = 0;
    while k < count
        invariant
            len == payload@.len(),
            count == bulk_piece_count(len as nat),
            k <= count,
            w@.len() == k + 1,
            w@[0]@ == bulk_header_bytes(len as nat),
            forall|i: int| 1 <= i < w@.len() ==> #[trigger] w@[i]@ == bulk_piece(payload@, i - 1),
        decreases count - k,
    {
        proof {
            vstd::arithmetic::div_mod::lemma_fundamental_div_mod(len as int, BULK_CHUNK as int);
        }
        assert(k * BULK_CHUNK < len);
        let start = k * BULK_CHUNK;
        let end = if len - start >= BULK_CHUNK { start + BULK_CHUNK } else { len };
        let piece = slice_to_vec(slice_subrange(payload, start, end));
        assert(piece@ == bulk_piece(payload@, k as int));
        w.push(piece);
        k = k + 1;
    }
    w
}

/// Whether a HID interface is the LCD control interface: interface 1 of a Kraken 2023
/// (product 0x300C) or Kraken Elite 2023 (product 0x300E) from NZXT.
pub open spec fn lcd_control_interface(vendor_id: u16, product_id: u16, interface_number: i32) -> bool {
    vendor_id == 0x1E71 && (product_id == 0x300E || product_id == 0x300C) && interface_number == 1
}

pub fn is_lcd_control_interface(vendor_id: u16, product_id: u16, interface_number: i32) -> (b: bool)
    ensures
        b == lcd_control_interface(vendor_id, product_id, interface_number),
{
    vendor_id == 0x1E71 && (product_id == 0x300E || product_id == 0x300C) && interface_number == 1
}

/// Whether a disconnected LCD should try to connect again at `now`: on the first attempt, and
/// then once five seconds have passed since the last one.
pub open spec fn retry_due(last_attempt: Option<u64>, now: u64) -> bool {
    match last_attempt {
        None => true,
        Some(t) => elapsed_since(t, now) >= 5000,
    }
}

pub fn should_retry_connect(last_attempt: Option<u64>, now: u64) -> (r: bool)
    ensures
        r == retry_due(last_attempt, now),
{
    match last_attempt {
        None => true,
        Some(t) => {
            let e = if now >= t { now - t } else { 0 };
            e >= 5000
        },
    }
}

/// What the LCD transport knows of its link: whether the bulk pipe is open, whether the first
/// frame has been sent (the display swaps buffers only after it has received a frame twice),
/// and when a connection was last attempted.
pub struct LinkView {
    pub connected: bool,
    pub initialized: bool,
    pub last_connect_attempt: Option<u64>,
}

/// After a frame was sent: the first frame is sent a second time, and the link is initialized
/// from then on.
pub open spec fn frame_sent_step(v: LinkView) -> (LinkView, bool) {
    (LinkView { initialized: true, ..v }, !v.initialized)
}

/// The link decisions of the LCD transport.
pub struct LcdLink {
    connected: bool,
    initialized: bool,
    last_connect_attempt: Option<u64>,
}

impl View for LcdLink {
    type V = LinkView;

    closed spec fn view(&self) -> LinkView {
        LinkView {
            connected: self.connected,
            initialized: self.initialized,
            last_connect_attempt: self.last_connect_attempt,
        }
    }
}

impl LcdLink {
    /// A link that is not connected, has sent nothing and has not tried to connect.
    pub fn new() -> (l: Self)
        ensures
            l@ == (LinkView { connected: false, initialized: false, last_connect_attempt: None }),
    {
        Self { connected: false, initialized: false, last_connect_attempt: None }
    }

    pub fn is_connected(&self) -> (c: bool)
        ensures
            c == self@.connected,
    {
        self.connected
    }

    /// Before a frame is sent at `now`: whether to try connecting first. A disconnected link
    /// tries when `retry_due` says so, and the attempt is remembered.
    pub fn connect_due(&mut self, now: u64) -> (attempt: bool)
        ensures
            attempt == (!old(self)@.connected && retry_due(old(self)@.last_connect_attempt, now)),
            final(self)@ == if attempt {
                LinkView { last_connect_attempt: Some(now), ..old(self)@ }
            } else {
                old(self)@
            },
    {
        if !self.connected && should_retry_connect(self.last_connect_attempt, now) {
            self.last_connect_attempt = Some(now);
            true
        } else {
            false
        }
    }

    /// Records whether the bulk pipe is open.
    pub fn set_connected(&mut self, connected: bool)
        ensures
            final(self)@ == (LinkView { connected, ..old(self)@ }),
    {
        self.connected = connected;
    }

    /// After a frame was sent: whether to send it a second time; see `frame_sent_step`.
    pub fn frame_sent(&mut self) -> (send_again: bool)
        ensures
            (final(self)@, send_again) == frame_sent_step(old(self)@),
    {
        let again = !self.initialized;
        self.initialized = true;
        again
    }
}

/// Only the first frame is sent twice: after any frame has been sent, no later one is.
pub proof fn lemma_only_first_frame_doubled(v: LinkView)
    ensures
        !frame_sent_step(frame_sent_step(v).0).1,
{
}

/// Checks that `rgba` is one whole `width`×`height` frame and converts it to RGB565.
pub fn kraken_frame_payload(width: u32, height: u32, rgba: &[u8]) -> (r: Result<Vec<u8>, LcdError>)
    requires
        width * height * 4 <= u32::MAX,
    ensures
        rgba@.len() == width * height * 4 ==> (r matches Ok(v) && v@ == rgb565_frame(rgba@)),
        rgba@.len() != width * height * 4 ==> (r matches Err(e) && e == (LcdError::BufferMismatch {
            expected: (width * height * 4) as usize,
            actual: rgba@.len() as usize,
        })),
{
    let expected = (width * height * 4) as usize;
    if rgba.len() != expected {
        return Err(LcdError::BufferMismatch { expected, actual: rgba.len() });
    }
    Ok(rgba_to_rgb565(rgba, width as usize, height as usize))
}

} // verus!
