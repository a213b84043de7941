use vstd::prelude::*;
use vstd::string::*;
use crate::windows::window::WM_APP;

verus! {

/// The message the notification icon sends to the main window; the mouse event is in the low
/// word of `lparam`.
pub const WM_TRAYICON: u32 = WM_APP + 1;

/// The id of the program's notification icon.
pub const TRAY_ICON_ID: u32 = 1001;

/// The UTF-16 code units of `c`: one for a character of the Basic Multilingual Plane, and a
/// surrogate pair for any other.
pub open spec fn utf16_units(c: char) -> Seq<u16> {
    if (c as u32) < 0x10000 {
        seq![c as u16]
    } else {
        let v = (c as u32 - 0x10000) as u32;
        seq![(0xD800u32 + (v >> 10u32)) as u16, (0xDC00u32 + (v & 0x3FFu32)) as u16]
    }
}

/// The UTF-16 encoding of `s`.
pub open spec fn utf16_encode(s: Seq<char>) -> Seq<u16>
    decreases s.len(),
{
    if s.len() == 0 {
        seq![]
    } else {
        utf16_encode(s.drop_last()) + utf16_units(s.last())
    }
}

/// Longest tooltip, in UTF-16 code units, that the notification area shows.
pub const TOOLTIP_MAX_UNITS: usize = 127;

/// The 128-unit tooltip field of a notification icon holding `s`: its first 127 UTF-16 code
/// units (a surrogate pair may be cut), then zeros.
pub open spec fn tooltip_field(s: Seq<char>) -> Seq<u16> {
    let u = utf16_encode(s);
    Seq::new(128, |i: int| if i < u.len() && i < 127 { u[i] } else { 0u16 })
}

/// Encoding a longer prefix extends the encoding of a shorter one.
proof fn lemma_encode_prefix(s: Seq<char>, i: int, j: int)
    requires
        0 <= i <= j <= s.len(),
    ensures
        utf16_encode(s.take(i)).len() <= utf16_encode(s.take(j)).len(),
        forall|k: int| 0 <= k < utf16_encode(s.take(i)).len() ==> #[trigger] utf16_encode(s.take(j))[k]
            == utf16_encode(s.take(i))[k],
    decreases j - i,
{
    if i < j {
        lemma_encode_prefix(s, i, j - 1);
        assert(s.take(j).drop_last() =~= s.take(j - 1));
    }
}

fn char_units(c: char) -> (u: Vec<u16>)
    ensures
        u@ == utf16_units(c),
{
    let code = c as u32;
    if code < 0x10000 {
        let u = vec![code as u16];
        assert(u@ =~= utf16_units(c));
        u
    } else {
        let v = code - 0x10000;
        assert(v >> 10u32 <= 0x3FF) by (bit_vector)
            requires v <= 0x10FFFF - 0x10000;
        assert(v & 0x3FFu32 <= 0x3FF) by (bit_vector);
        let u = vec![(0xD800u32 + (v >> 10)) as u16, (0xDC00u32 + (v & 0x3FF)) as u16];
        assert(u@ =~= utf16_units(c));
        u
    }
}

/// The tooltip field of a notification icon for `tooltip`; see `tooltip_field`.
pub fn tooltip_units(tooltip: &str) -> (field: Vec<u16>)
    ensures
        field@ == tooltip_field(tooltip@),
{
    let n = tooltip.unicode_len();
    let mut units: Vec<u16> = Vec::new();
    let mut i: usize = 0;
    while i < n && units.len() < TOOLTIP_MAX_UNITS
        invariant
            n == tooltip@.len(),
            i <= n,
            units@.len() <= 127,
            units@.len() == if utf16_encode(tooltip@.take(i as int)).len() < 127 {
                utf16_encode(tooltip@.take(i as int)).len()
            } else {
                127
            },
            forall|k: int| 0 <= k < units@.len() ==> #[trigger] units@[k] == utf16_encode(tooltip@.take(i as int))[k],
        decreases n - i,
    {
        let cu = char_units(tooltip.get_char(i));
        let ghost before = units@;
        let mut j: usize = 0;
        while j < cu.len() && units.len() < TOOLTIP_MAX_UNITS
            invariant
                j <= cu@.len(),
                units@.len() <= 127,
                units@.len() == before.len() + j,
                forall|k: int| 0 <= k < before.len() ==> #[trigger] units@[k] == before[k],
                forall|k: int| 0 <= k < j ==> #[trigger] units@[before.len() + k] == cu@[k],
            decreases cu@.len() - j,
        {
            units.push(cu[j]);
            j = j + 1;
        }
        proof {
            let s = tooltip@;
            assert(s.take(i + 1).drop_last() =~= s.take(i as int));
            assert(s.take(i + 1).last() == s[i as int]);
            let e0 = utf16_encode(s.take(i as int));
            let e1 = utf16_encode(s.take(i + 1));
            assert(e1 == e0 + utf16_units(s[i as int]));
            assert forall|k: int| 0 <= k < units@.len() implies #[trigger] units@[k] == e1[k] by {
                if k >= before.len() {
                    assert(units@[before.len() + (k - before.len())] == cu@[k - before.len()]);
                }
            }
        }
        i = i + 1;
    }
    proof {
        let s = tooltip@;
        lemma_encode_prefix(s, i as int, n as int);
        assert(s.take(n as int) =~= s);
    }
    let ghost enc = utf16_encode(tooltip@);
    assert(units@.len() == if enc.len() < 127 { enc.len() } else { 127 });
    let mut field = units;
    while field.len() < 128
        invariant
            field@.len() <= 128,
            enc == utf16_encode(tooltip@),
            field@.len() >= if enc.len() < 127 { enc.len() } else { 127 },
            forall|k: int| 0 <= k < field@.len() ==> #[trigger] field@[k] == tooltip_field(tooltip@)[k],
        decreases 128 - field@.len(),
    {
        field.push(0);
    }
    assert(field@ =~= tooltip_field(tooltip@));
    field
}

} // verus!
