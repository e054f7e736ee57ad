//! NUL-terminated UTF-16 buffers, as used by wide-character system interfaces.

use vstd::prelude::*;

use crate::date::string_push;

verus! {

/// A leading (high) surrogate code unit.
pub open spec fn is_high_surrogate(u: u16) -> bool {
    0xD800 <= u <= 0xDBFF
}

/// A trailing (low) surrogate code unit.
pub open spec fn is_low_surrogate(u: u16) -> bool {
    0xDC00 <= u <= 0xDFFF
}

/// Any surrogate code unit.
pub open spec fn is_surrogate(u: u16) -> bool {
    0xD800 <= u <= 0xDFFF
}

/// The scalar value that a surrogate pair encodes.
pub open spec fn pair_value(high: u16, low: u16) -> int {
    0x10000 + (high - 0xD800) * 0x400 + (low - 0xDC00)
}

/// The code units of one character in UTF-16.
pub open spec fn char_units(c: char) -> Seq<u16> {
    let v = c as int;
    if v < 0x10000 {
        seq![v as u16]
    } else {
        seq![(0xD800 + (v - 0x10000) / 0x400) as u16, (0xDC00 + (v - 0x10000) % 0x400) as u16]
    }
}

/// The UTF-16 encoding of a text.
pub open spec fn encode_utf16(text: Seq<char>) -> Seq<u16>
    decreases text.len(),
{
    if text.len() == 0 {
        Seq::empty()
    } else {
        char_units(text[0]) + encode_utf16(text.skip(1))
    }
}

/// Decodes UTF-16, putting U+FFFD in place of every surrogate that is not part of a pair.
pub open spec fn decode_utf16_lossy(units: Seq<u16>) -> Seq<char>
    decreases units.len(),
{
    if units.len() == 0 {
        Seq::empty()
    } else if units.len() >= 2 && is_high_surrogate(units[0]) && is_low_surrogate(units[1]) {
        seq![pair_value(units[0], units[1]) as char] + decode_utf16_lossy(units.skip(2))
    } else if is_surrogate(units[0]) {
        seq!['\u{FFFD}'] + decode_utf16_lossy(units.skip(1))
    } else {
        seq![units[0] as char] + decode_utf16_lossy(units.skip(1))
    }
}

/// Index of the first NUL unit, or the length when there is none.
pub open spec fn nul_position(units: Seq<u16>) -> int
    decreases units.len(),
{
    if units.len() == 0 {
        0
    } else if units[0] == 0 {
        0
    } else {
        1 + nul_position(units.skip(1))
    }
}

/// The text held by a NUL-terminated buffer: the units before the first NUL, decoded.
pub open spec fn wide_text(units: Seq<u16>) -> Seq<char> {
    decode_utf16_lossy(units.take(nul_position(units)))
}

/// `nul_position` is the first index holding NUL, or the length.
pub proof fn lemma_nul_position(units: Seq<u16>, i: int)
    requires
        0 <= i <= units.len(),
        forall|j: int| 0 <= j < i ==> units[j] != 0,
        i < units.len() ==> units[i] == 0,
    ensures
        nul_position(units) == i,
    decreases i,
{
    if i > 0 {
        assert forall|j: int| 0 <= j < i - 1 implies units.skip(1)[j] != 0 by {
            assert(units[j + 1] != 0);
        }
        lemma_nul_position(units.skip(1), i - 1);
    }
}

/// `char::from_u32`: the character whose scalar value is `v`, if there is one.
#[verifier::external_body]
fn char_from_u32(v: u32) -> (c: Option<char>)
    ensures
        (v <= 0xD7FF || (0xE000 <= v && v <= 0x10FFFF)) <==> c is Some,
        c is Some ==> c->0 as int == v as int,
{
    char::from_u32(v)
}

/// The UTF-16 code units of `s`, in order (no terminator).
pub fn utf16_units(s: &str) -> (units: Vec<u16>)
    ensures
        units@ == encode_utf16(s@),
{
    let n = s.unicode_len();
    let mut units: Vec<u16> = Vec::new();
    let mut i: usize = 0;
    proof {
        assert(s@.skip(0) =~= s@);
        assert(units@ + encode_utf16(s@) =~= encode_utf16(s@));
    }
    while i < n
        invariant
            n == s@.len(),
            0 <= i <= n,
            encode_utf16(s@) == units@ + encode_utf16(s@.skip(i as int)),
        decreases n - i,
    {
        let c = s.get_char(i);
        let v = c as u32;
        let ghost before = units@;
        let ghost rest = s@.skip(i as int);
        proof {
            assert(rest[0] == c);
            assert(rest.skip(1) =~= s@.skip(i + 1));
        }
        if v < 0x10000 {
            units.push(v as u16);
        } else {
            let w = v - 0x10000;
            units.push((0xD800 + w / 0x400) as u16);
            units.push((0xDC00 + w % 0x400) as u16);
        }
        proof {
            assert(units@ =~= before + char_units(c));
            assert(before + encode_utf16(rest) =~= units@ + encode_utf16(s@.skip(i + 1)));
        }
        i += 1;
    }
    proof {
        assert(s@.skip(n as int) =~= Seq::<char>::empty());
        assert(units@ + Seq::<u16>::empty() =~= units@);
    }
    units
}

/// Decodes the first `end` code units, putting U+FFFD in place of each unpaired surrogate.
pub fn utf16_prefix_to_string_lossy(all_units: &[u16], end: usize) -> (text: String)
    requires
        end <= all_units@.len(),
    ensures
        text@ == decode_utf16_lossy(all_units@.take(end as int)),
{
    let n = end;
    let ghost units = all_units@.take(end as int);
    let mut text = String::new();
    let mut i: usize = 0;
    proof {
        assert(units.skip(0) =~= units);
        assert(text@ + decode_utf16_lossy(units) =~= decode_utf16_lossy(units));
    }
    while i < n
        invariant
            n == units.len(),
            n <= all_units@.len(),
            units == all_units@.take(n as int),
            0 <= i <= n,
            decode_utf16_lossy(units) == text@ + decode_utf16_lossy(units.skip(i as int)),
        decreases n - i,
    {
        let u = all_units[i];
        let ghost before = text@;
        let ghost rest = units.skip(i as int);
        proof {
            assert(rest[0] == u);
        }
        if i + 1 < n && 0xD800 <= u && u <= 0xDBFF && 0xDC00 <= all_units[i + 1] && all_units[i
            + 1] <= 0xDFFF {
            let low = all_units[i + 1];
            let v: u32 = 0x10000 + ((u as u32) - 0xD800) * 0x400 + ((low as u32) - 0xDC00);
            proof {
                assert(rest[1] == low);
                assert(rest.skip(2) =~= units.skip(i + 2));
                assert(v == pair_value(u, low));
                assert(0x10000 <= v <= 0x10FFFF);
            }
            let decoded = char_from_u32(v);
            if let Some(c) = decoded {
                assert(c as int == pair_value(u, low));
                assert((c as int) as char == c);
                string_push(&mut text, c);
            }
            proof {
                assert(text@ =~= before + seq![pair_value(u, low) as char]);
            }
            i += 2;
        } else if 0xD800 <= u && u <= 0xDFFF {
            proof {
                assert(rest.skip(1) =~= units.skip(i + 1));
            }
            string_push(&mut text, '\u{FFFD}');
            i += 1;
        } else {
            proof {
                assert(rest.skip(1) =~= units.skip(i + 1));
            }
            let decoded = char_from_u32(u as u32);
            if let Some(c) = decoded {
                assert(c as int == u as int);
                assert((c as int) as char == c);
                string_push(&mut text, c);
            }
            proof {
                assert(text@ =~= before + seq![u as char]);
            }
            i += 1;
        }
        proof {
            assert(before + decode_utf16_lossy(rest) =~= text@ + decode_utf16_lossy(
                units.skip(i as int),
            ));
        }
    }
    proof {
        assert(units.skip(n as int) =~= Seq::<u16>::empty());
        assert(text@ + Seq::<char>::empty() =~= text@);
    }
    text
}

/// Index of the first NUL unit, or the length when there is none.
fn first_nul(units: &[u16]) -> (pos: usize)
    ensures
        pos == nul_position(units@),
        pos <= units@.len(),
{
    let mut i: usize = 0;
    while i < units.len() && units[i] != 0
        invariant
            i <= units@.len(),
            forall|j: int| 0 <= j < i ==> units@[j] != 0,
        decreases units@.len() - i,
    {
        i += 1;
    }
    proof {
        lemma_nul_position(units@, i as int);
    }
    i
}

/// The text of a NUL-terminated buffer.
fn terminated_to_string(units: &[u16]) -> (text: String)
    ensures
        text@ == wide_text(units@),
{
    let end = first_nul(units);
    utf16_prefix_to_string_lossy(units, end)
}

/// Reading the text out of a NUL-terminated UTF-16 buffer.
pub trait WideStringRead {
    /// The code units held.
    spec fn wide_units(&self) -> Seq<u16>;

    /// The units before the first NUL (all of them if there is none), decoded; each
    /// unpaired surrogate becomes U+FFFD.
    fn to_string(&self) -> (text: String)
        ensures
            text@ == wide_text(self.wide_units()),
    ;
}

/// Writing a text into a NUL-terminated UTF-16 buffer.
pub trait WideStringExt: WideStringRead + Sized {
    /// Whether a buffer of this type has room for the terminator.
    spec fn holds_terminator() -> bool;

    /// The units of the buffer written from `text`.
    spec fn written(text: Seq<char>) -> Seq<u16>;

    /// The buffer holding `s`, NUL-terminated.
    fn from_str(s: &str) -> (buffer: Self)
        requires
            Self::holds_terminator(),
        ensures
            buffer.wide_units() == Self::written(s@),
    ;
}

/// A buffer of `capacity` units holding `units`, cut to leave room for one NUL, then
/// filled with NUL.
pub open spec fn fixed_buffer(units: Seq<u16>, capacity: int) -> Seq<u16> {
    Seq::new(
        capacity as nat,
        |i: int|
            if i < units.len() && i < capacity - 1 {
                units[i]
            } else {
                0u16
            },
    )
}

impl<const N: usize> WideStringRead for [u16; N] {
    open spec fn wide_units(&self) -> Seq<u16> {
        self@
    }

    fn to_string(&self) -> (text: String) {
        terminated_to_string(vstd::array::array_as_slice(self))
    }
}

impl WideStringRead for [u16] {
    open spec fn wide_units(&self) -> Seq<u16> {
        self@
    }

    fn to_string(&self) -> (text: String) {
        terminated_to_string(self)
    }
}

impl WideStringRead for Vec<u16> {
    open spec fn wide_units(&self) -> Seq<u16> {
        self@
    }

    fn to_string(&self) -> (text: String) {
        terminated_to_string(self.as_slice())
    }
}

impl<const N: usize> WideStringExt for [u16; N] {
    open spec fn holds_terminator() -> bool {
        N >= 1
    }

    open spec fn written(text: Seq<char>) -> Seq<u16> {
        fixed_buffer(encode_utf16(text), N as int)
    }

    fn from_str(s: &str) -> (buffer: Self) {
        let mut buffer: [u16; N] = vstd::array::array_fill_for_copy_types(0u16);
        let wide = utf16_units(s);
        let copy_len = if wide.len() < N - 1 {
            wide.len()
        } else {
            N - 1
        };
        let mut i: usize = 0;
        while i < copy_len
            invariant
                copy_len <= wide@.len(),
                copy_len <= N - 1,
                i <= copy_len,
                buffer@.len() == N,
                forall|j: int| 0 <= j < i ==> buffer@[j] == wide@[j],
                forall|j: int| i <= j < N ==> buffer@[j] == 0,
            decreases copy_len - i,
        {
            buffer[i] = wide[i];
            i += 1;
        }
        proof {
            assert(buffer@ =~= fixed_buffer(wide@, N as int));
        }
        buffer
    }
}

impl WideStringExt for Vec<u16> {
    open spec fn holds_terminator() -> bool {
        true
    }

    open spec fn written(text: Seq<char>) -> Seq<u16> {
        encode_utf16(text).push(0)
    }

    fn from_str(s: &str) -> (buffer: Self) {
        let mut buffer = utf16_units(s);
        buffer.push(0);
        buffer
    }
}

/// Whether a text holds no NUL character.
pub open spec fn free_of_nul(text: Seq<char>) -> bool {
    forall|i: int| 0 <= i < text.len() ==> text[i] != '\0'
}

/// A value below 2^16 keeps its value as a code unit.
pub proof fn lemma_unit_cast(x: int)
    requires
        0 <= x < 0x10000,
    ensures
        (x as u16) as int == x,
{
}

/// The scalar value of a character lies outside the surrogate range.
proof fn lemma_char_range(c: char)
    ensures
        0 <= c as int <= 0x10FFFF,
        !(0xD800 <= c as int <= 0xDFFF),
{
}

/// Decoding undoes encoding.
pub proof fn lemma_decode_encode(text: Seq<char>)
    ensures
        decode_utf16_lossy(encode_utf16(text)) == text,
    decreases text.len(),
{
    if text.len() > 0 {
        let c = text[0];
        let e = encode_utf16(text);
        let tail = encode_utf16(text.skip(1));
        lemma_decode_encode(text.skip(1));
        lemma_char_range(c);
        let v = c as int;
        if v < 0x10000 {
            assert(e.skip(1) =~= tail);
            lemma_unit_cast(v);
            assert(((v as u16) as char) as int == v);
        } else {
            let w = v - 0x10000;
            assert(0 <= w / 0x400 < 0x400 && 0 <= w % 0x400 < 0x400 && w == (w / 0x400) * 0x400
                + w % 0x400) by (nonlinear_arith)
                requires
                    0 <= w < 0x100000,
            ;
            let high = (0xD800 + w / 0x400) as u16;
            let low = (0xDC00 + w % 0x400) as u16;
            lemma_unit_cast(0xD800 + w / 0x400);
            lemma_unit_cast(0xDC00 + w % 0x400);
            assert(e[0] == high && e[1] == low);
            assert(pair_value(high, low) == v);
            assert(e.skip(2) =~= tail);
        }
        assert(text =~= seq![c] + text.skip(1));
    }
}

/// A text without NUL characters encodes to units without NUL.
pub proof fn lemma_encode_free_of_nul(text: Seq<char>)
    requires
        free_of_nul(text),
    ensures
        forall|j: int| 0 <= j < encode_utf16(text).len() ==> encode_utf16(text)[j] != 0,
    decreases text.len(),
{
    if text.len() > 0 {
        assert(free_of_nul(text.skip(1))) by {
            assert forall|i: int| 0 <= i < text.skip(1).len() implies text.skip(1)[i] != '\0' by {
                assert(text.skip(1)[i] == text[i + 1]);
            }
        }
        lemma_encode_free_of_nul(text.skip(1));
        let c = text[0];
        lemma_char_range(c);
        let v = c as int;
        assert(v != 0);
        let e = encode_utf16(text);
        let head = char_units(c);
        assert forall|j: int| 0 <= j < e.len() implies e[j] != 0 by {
            if j >= head.len() {
                assert(e[j] == encode_utf16(text.skip(1))[j - head.len()]);
            } else if v < 0x10000 {
                lemma_unit_cast(v);
            }
        }
    }
}

/// The text of a buffer that holds `units` followed by a NUL is the decoded `units`.
proof fn lemma_terminated_text(units: Seq<u16>, buffer: Seq<u16>)
    requires
        units.len() < buffer.len(),
        forall|j: int| 0 <= j < units.len() ==> units[j] != 0 && buffer[j] == units[j],
        buffer[units.len() as int] == 0,
    ensures
        wide_text(buffer) == decode_utf16_lossy(units),
{
    lemma_nul_position(buffer, units.len() as int);
    assert(buffer.take(units.len() as int) =~= units);
}

/// Reading back a vector written from a text without NUL gives the text.
pub proof fn lemma_vec_round_trip(text: Seq<char>)
    requires
        free_of_nul(text),
    ensures
        wide_text(<Vec<u16> as WideStringExt>::written(text)) == text,
{
    let units = encode_utf16(text);
    lemma_encode_free_of_nul(text);
    lemma_terminated_text(units, units.push(0));
    lemma_decode_encode(text);
}

/// Reading back an array written from a text without NUL gives the text, when the
/// encoded text leaves room for the terminator.
pub proof fn lemma_array_round_trip<const N: usize>(text: Seq<char>)
    requires
        free_of_nul(text),
        encode_utf16(text).len() < N,
    ensures
        wide_text(<[u16; N] as WideStringExt>::written(text)) == text,
{
    let units = encode_utf16(text);
    lemma_encode_free_of_nul(text);
    lemma_terminated_text(units, fixed_buffer(units, N as int));
    lemma_decode_encode(text);
}

} // verus!
