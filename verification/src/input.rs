//! Pointer input as the page reports it: the phase of a pointer event, the
//! modifier keys held, and the kind of device behind it.
use vstd::prelude::*;

verus! {

/// The stage of a pointer's lifecycle that an event reports.
#[derive(Clone, Copy, Debug, PartialEq, Eq, Structural)]
pub enum PointerPhase {
    Start,
    Move,
    End,
    Cancel,
}

/// The modifier keys held during a pointer event.
#[derive(Clone, Copy, Debug, PartialEq, Eq, Structural)]
pub struct PointerModifiers {
    pub alt: bool,
    pub ctrl: bool,
    pub meta: bool,
    pub shift: bool,
}

impl Default for PointerModifiers {
    /// No modifier held.
    fn default() -> (m: PointerModifiers)
        ensures
            m == (PointerModifiers { alt: false, ctrl: false, meta: false, shift: false }),
    {
        PointerModifiers { alt: false, ctrl: false, meta: false, shift: false }
    }
}

/// The kind of device that produced a pointer event.
#[derive(Clone, Copy, Debug, PartialEq, Eq, Structural)]
pub enum PointerDevice {
    Touch,
    Mouse,
    Pen,
    Unknown,
}

/// ASCII lower-casing of one character: `A`..`Z` map to `a`..`z`, every
/// other character is kept.
pub open spec fn ascii_lower(c: char) -> char {
    if 'A' <= c && c <= 'Z' {
        ((c as u32) + 32) as char
    } else {
        c
    }
}

/// ASCII lower-casing of a string.
pub open spec fn ascii_lower_seq(s: Seq<char>) -> Seq<char> {
    s.map_values(|c: char| ascii_lower(c))
}

/// The device that a `pointerType` string names, compared without regard to
/// ASCII case.
pub open spec fn device_named(s: Seq<char>) -> PointerDevice {
    let l = ascii_lower_seq(s);
    if l == seq!['t', 'o', 'u', 'c', 'h'] {
        PointerDevice::Touch
    } else if l == seq!['m', 'o', 'u', 's', 'e'] {
        PointerDevice::Mouse
    } else if l == seq!['p', 'e', 'n'] {
        PointerDevice::Pen
    } else {
        PointerDevice::Unknown
    }
}

/// Classification ignores ASCII case: lower-casing a `pointerType` first
/// names the same device.
pub proof fn lemma_device_ignores_case(s: Seq<char>)
    ensures
        device_named(ascii_lower_seq(s)) == device_named(s),
{
    assert(ascii_lower_seq(ascii_lower_seq(s)) =~= ascii_lower_seq(s)) by {
        assert forall|k: int| 0 <= k < s.len() implies ascii_lower(ascii_lower(s[k])) == ascii_lower(
            s[k],
        ) by {
            let c = s[k];
            if 'A' <= c && c <= 'Z' {
                assert(ascii_lower(c) as u32 == (c as u32) + 32);
            }
        }
    }
}

fn lower_char(c: char) -> (r: char)
    ensures
        r == ascii_lower(c),
{
    if 'A' <= c && c <= 'Z' {
        let code: u32 = c as u32;
        let lowered: u8 = (code + 32) as u8;
        lowered as char
    } else {
        c
    }
}

/// Whether `s`, lower-cased in ASCII, is `word`.
fn lower_equals(s: &str, word: &[char]) -> (b: bool)
    ensures
        b == (ascii_lower_seq(s@) == word@),
{
    let n = s.unicode_len();
    if n != word.len() {
        proof {
            assert(ascii_lower_seq(s@).len() != word@.len());
        }
        return false;
    }
    let mut i: usize = 0;
    while i < n
        invariant
            n == s@.len(),
            n == word@.len(),
            i <= n,
            forall|k: int| 0 <= k < i ==> ascii_lower(#[trigger] s@[k]) == word@[k],
        decreases n - i,
    {
        let c = lower_char(s.get_char(i));
        if c != word[i] {
            proof {
                assert(ascii_lower_seq(s@)[i as int] != word@[i as int]);
            }
            return false;
        }
        i = i + 1;
    }
    proof {
        assert(ascii_lower_seq(s@) =~= word@);
    }
    true
}

impl PointerDevice {
    /// Classifies a `pointerType` string: `touch`, `mouse` and `pen` in any
    /// ASCII case name their devices; anything else is `Unknown`.
    pub fn from_str(pointer_type: &str) -> (d: PointerDevice)
        ensures
            d == device_named(pointer_type@),
    {
        let touch: [char; 5] = ['t', 'o', 'u', 'c', 'h'];
        let mouse: [char; 5] = ['m', 'o', 'u', 's', 'e'];
        let pen: [char; 3] = ['p', 'e', 'n'];
        proof {
            assert(touch@ =~= seq!['t', 'o', 'u', 'c', 'h']);
            assert(mouse@ =~= seq!['m', 'o', 'u', 's', 'e']);
            assert(pen@ =~= seq!['p', 'e', 'n']);
        }
        if lower_equals(pointer_type, touch.as_slice()) {
            PointerDevice::Touch
        } else if lower_equals(pointer_type, mouse.as_slice()) {
            PointerDevice::Mouse
        } else if lower_equals(pointer_type, pen.as_slice()) {
            PointerDevice::Pen
        } else {
            PointerDevice::Unknown
        }
    }
}

} // verus!
