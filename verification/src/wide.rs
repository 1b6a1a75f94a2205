//! Conversions between host strings and the 16-bit ("wide") native character
//! representation.
//!
//! The wide representation encodes each character as one 16-bit unit, or as a
//! surrogate pair of two units for characters beyond the basic plane.
//! Decoding is permissive: an unpaired surrogate unit is replaced, never
//! fatal.  As with the 8-bit path, a fixed-length buffer is decoded whole
//! while a terminated buffer is decoded up to its first terminator unit.

use vstd::arithmetic::div_mod::lemma_div_is_ordered;
use vstd::arithmetic::div_mod::lemma_div_pos_is_pos;
use vstd::arithmetic::div_mod::lemma_fundamental_div_mod;
use vstd::arithmetic::div_mod::lemma_mod_division_less_than_divisor;
use vstd::prelude::*;
use vstd::slice::slice_index_get;
use vstd::slice::slice_subrange;
use vstd::string::StrSliceExecFns;
use vstd::utf8::char_is_scalar;
use vstd::utf8::char_u32_cast;
use vstd::utf8::is_scalar;

use crate::error::HostFxrError;
use crate::error::HostFxrResult;
use crate::string::IntoBytes;
use crate::string::IntoString;

verus! {

/// True of the first unit of a surrogate pair.
pub open spec fn is_high_surrogate(u: u16) -> bool {
    0xD800 <= u <= 0xDBFF
}

/// True of the second unit of a surrogate pair.
pub open spec fn is_low_surrogate(u: u16) -> bool {
    0xDC00 <= u <= 0xDFFF
}

/// True of any unit that cannot stand for a character on its own.
pub open spec fn is_surrogate_unit(u: u16) -> bool {
    0xD800 <= u <= 0xDFFF
}

/// The scalar value encoded by a surrogate pair.
pub open spec fn combine_surrogates(hi: u16, lo: u16) -> u32
    recommends
        is_high_surrogate(hi),
        is_low_surrogate(lo),
{
    (0x10000 + (hi - 0xD800) * 0x400 + (lo - 0xDC00)) as u32
}

/// The wide encoding of a single scalar value: one unit inside the basic
/// plane, a surrogate pair beyond it.
pub open spec fn encode_utf16_scalar(v: u32) -> Seq<u16>
    recommends
        is_scalar(v),
{
    if v < 0x10000 {
        seq![v as u16]
    } else {
        seq![
            (0xD800 + (v - 0x10000) / 0x400) as u16,
            (0xDC00 + (v - 0x10000) % 0x400) as u16,
        ]
    }
}

/// The wide encoding of a character sequence.
pub open spec fn encode_utf16(s: Seq<char>) -> Seq<u16>
    decreases s.len(),
{
    if s.len() == 0 {
        seq![]
    } else {
        encode_utf16_scalar(s[0] as u32) + encode_utf16(s.drop_first())
    }
}

/// The permissive decoding of arbitrary wide units: a non-surrogate unit is
/// its own character, a high surrogate followed by a low surrogate is their
/// combined character, and any unpaired surrogate becomes the replacement
/// character.
pub open spec fn decode_utf16_lossy(units: Seq<u16>) -> Seq<char>
    decreases units.len(),
{
    if units.len() == 0 {
        seq![]
    } else if !is_surrogate_unit(units[0]) {
        seq![(units[0] as u32) as char] + decode_utf16_lossy(units.drop_first())
    } else if is_high_surrogate(units[0]) && units.len() >= 2 && is_low_surrogate(units[1]) {
        seq![combine_surrogates(units[0], units[1]) as char] + decode_utf16_lossy(units.skip(2))
    } else {
        seq!['\u{FFFD}'] + decode_utf16_lossy(units.drop_first())
    }
}

/// The outgoing wide form of a string: its wide units followed by a single
/// terminator unit.
pub open spec fn wide_c_string_units(s: Seq<char>) -> Seq<u16> {
    encode_utf16(s).push(0)
}

/// The position of the first terminator unit in a wide buffer, or the length
/// of the buffer when it holds none.
pub open spec fn first_zero_wide(units: Seq<u16>) -> int
    decreases units.len(),
{
    if units.len() == 0 {
        0
    } else if units[0] == 0 {
        0
    } else {
        1 + first_zero_wide(units.drop_first())
    }
}

/// The wide units that precede the first terminator unit.
pub open spec fn prefix_before_zero_wide(units: Seq<u16>) -> Seq<u16> {
    units.take(first_zero_wide(units))
}

/// `first_zero_wide` points at the first terminator unit.
pub proof fn lemma_first_zero_wide_bounds(units: Seq<u16>)
    ensures
        0 <= first_zero_wide(units) <= units.len(),
        forall|k: int| 0 <= k < first_zero_wide(units) ==> units[k] != 0,
        first_zero_wide(units) < units.len() ==> units[first_zero_wide(units)] == 0,
    decreases units.len(),
{
    if units.len() == 0 {
    } else if units[0] == 0 {
    } else {
        lemma_first_zero_wide_bounds(units.drop_first());
        assert forall|k: int| 0 <= k < first_zero_wide(units) implies units[k] != 0 by {
            if k >= 1 {
                assert(units.drop_first()[k - 1] == units[k]);
            }
        }
    }
}

/// Any position with no terminator before it that either sits at a
/// terminator or at the end of the buffer is `first_zero_wide`.
pub proof fn lemma_first_zero_wide_is(units: Seq<u16>, i: int)
    requires
        0 <= i <= units.len(),
        forall|k: int| 0 <= k < i ==> units[k] != 0,
        i < units.len() ==> units[i] == 0,
    ensures
        first_zero_wide(units) == i,
    decreases units.len(),
{
    if units.len() == 0 {
    } else if units[0] == 0 {
        assert(i == 0);
    } else {
        assert(i >= 1);
        lemma_first_zero_wide_is(units.drop_first(), i - 1);
    }
}

/// Bounds of the surrogate pair computed for a scalar beyond the basic
/// plane, and the fact that combining the pair recovers the scalar.
proof fn lemma_surrogates_of_scalar(v: u32)
    requires
        0x10000 <= v <= 0x10FFFF,
    ensures
        0 <= (v - 0x10000) / 0x400 <= 0x3FF,
        0 <= (v - 0x10000) % 0x400 < 0x400,
        0x10000 + ((v - 0x10000) / 0x400) * 0x400 + (v - 0x10000) % 0x400 == v,
{
    let w = v - 0x10000;
    lemma_div_pos_is_pos(w, 0x400);
    lemma_div_is_ordered(w, 0xFFFFF, 0x400);
    lemma_mod_division_less_than_divisor(w, 0x400);
    lemma_fundamental_div_mod(w, 0x400);
}

/// Decoding the wide encoding of any character sequence returns exactly that
/// sequence: the encoding of each character is either one non-surrogate unit
/// or a well-formed surrogate pair.
pub proof fn lemma_wide_round_trip(s: Seq<char>)
    ensures
        decode_utf16_lossy(encode_utf16(s)) == s,
    decreases s.len(),
{
    if s.len() == 0 {
        assert(decode_utf16_lossy(encode_utf16(s)) =~= s);
    } else {
        let v = s[0] as u32;
        char_is_scalar(s[0]);
        char_u32_cast(s[0], v);
        lemma_wide_round_trip(s.drop_first());
        let e = encode_utf16(s);
        let tail = encode_utf16(s.drop_first());
        if v < 0x10000 {
            let u = v as u16;
            assert(u == v);
            assert(e =~= seq![u] + tail);
            assert(!is_surrogate_unit(u));
            assert(e.drop_first() =~= tail);
            assert((u as u32) as char == s[0]);
            assert(decode_utf16_lossy(e) =~= s);
        } else {
            lemma_surrogates_of_scalar(v);
            let hi = (0xD800 + (v - 0x10000) / 0x400) as u16;
            let lo = (0xDC00 + (v - 0x10000) % 0x400) as u16;
            assert(hi == 0xD800 + (v - 0x10000) / 0x400);
            assert(lo == 0xDC00 + (v - 0x10000) % 0x400);
            assert(e =~= seq![hi, lo] + tail);
            assert(is_high_surrogate(hi) && is_low_surrogate(lo));
            assert(e.len() >= 2 && e[0] == hi && e[1] == lo);
            assert(combine_surrogates(hi, lo) == v);
            assert(e.skip(2) =~= tail);
            assert(combine_surrogates(e[0], e[1]) as char == s[0]);
            assert(decode_utf16_lossy(e) =~= s);
        }
    }
}

/// A wide encoding holds a zero unit exactly when the encoded characters
/// hold the terminator character: surrogate units are never zero, and a
/// basic-plane unit is the scalar itself.
pub proof fn lemma_encode_utf16_zero(s: Seq<char>)
    ensures
        encode_utf16(s).contains(0) <==> s.contains('\0'),
    decreases s.len(),
{
    if s.len() == 0 {
    } else {
        let v = s[0] as u32;
        char_is_scalar(s[0]);
        char_u32_cast(s[0], v);
        lemma_encode_utf16_zero(s.drop_first());
        let head = encode_utf16_scalar(v);
        let tail = encode_utf16(s.drop_first());
        assert(encode_utf16(s) == head + tail);
        assert(v == 0 <==> s[0] == '\0') by {
            if v == 0 {
                assert((0u32 as char) == s[0]);
            }
        }
        if v >= 0x10000 {
            lemma_surrogates_of_scalar(v);
        }
        assert(head.contains(0) <==> v == 0) by {
            if v == 0 {
                assert(head[0] == 0);
            } else if head.contains(0) {
                let j = choose|j: int| 0 <= j < head.len() && head[j] == 0;
                assert(head[j] != 0);
            }
        }
        if s.contains('\0') {
            let i = choose|i: int| 0 <= i < s.len() && s[i] == '\0';
            if i == 0 {
                let j = choose|j: int| 0 <= j < head.len() && head[j] == 0;
                assert((head + tail)[j] == 0);
            } else {
                assert(s.drop_first()[i - 1] == '\0');
                assert(s.drop_first().contains('\0'));
                let j = choose|j: int| 0 <= j < tail.len() && tail[j] == 0;
                assert((head + tail)[head.len() + j] == 0);
            }
            assert(encode_utf16(s).contains(0));
        }
        if encode_utf16(s).contains(0) {
            let j = choose|j: int| 0 <= j < encode_utf16(s).len() && encode_utf16(s)[j] == 0;
            if j < head.len() {
                assert(head[j] == 0);
                assert(head.contains(0));
                assert(s[0] == '\0');
            } else {
                assert(tail[j - head.len()] == 0);
                assert(tail.contains(0));
                let i = choose|i: int| 0 <= i < s.drop_first().len() && s.drop_first()[i] == '\0';
                assert(s[i + 1] == '\0');
            }
            assert(s.contains('\0'));
        }
    }
}

/// Relies on `char::from_u32`: every Unicode scalar value converts to the
/// character with exactly that value.
#[verifier::external_body]
fn char_from_scalar(v: u32) -> (c: char)
    requires
        is_scalar(v),
    ensures
        c as u32 == v,
{
    match char::from_u32(v) {
        Some(c) => c,
        None => '\u{FFFD}',
    }
}

/// Relies on `String::push`: it appends exactly the one character.
#[verifier::external_body]
fn push_char(s: &mut String, c: char)
    ensures
        final(s)@ == old(s)@.push(c),
{
    s.push(c);
}

/// Finds the first terminator unit in a wide buffer, or the buffer's length
/// when there is none.
pub fn find_wide_terminator(units: &[u16]) -> (r: usize)
    ensures
        r == first_zero_wide(units@),
{
    let n = units.len();
    let mut i: usize = 0;
    while i < n && *slice_index_get(units, i) != 0
        invariant
            0 <= i <= n,
            n == units@.len(),
            forall|k: int| 0 <= k < i ==> units@[k] != 0,
        decreases n - i,
    {
        i += 1;
    }
    proof {
        lemma_first_zero_wide_is(units@, i as int);
    }
    i
}

/// Encodes a string into wide units, without a terminator.
pub fn encode_wide(s: &str) -> (r: Vec<u16>)
    ensures
        r@ == encode_utf16(s@),
{
    let n = s.unicode_len();
    let mut v: Vec<u16> = Vec::new();
    let mut i: usize = 0;
    proof {
        assert(s@.skip(0) =~= s@);
        assert(v@ + encode_utf16(s@.skip(0)) =~= encode_utf16(s@));
    }
    while i < n
        invariant
            i <= n,
            n == s@.len(),
            encode_utf16(s@) == v@ + encode_utf16(s@.skip(i as int)),
        decreases n - i,
    {
        let ghost prev = v@;
        let ghost rest = s@.skip(i as int);
        let c = s.get_char(i);
        proof {
            char_is_scalar(c);
            assert(rest[0] == s@[i as int]);
            assert(rest.drop_first() =~= s@.skip(i as int + 1));
        }
        let u = c as u32;
        if u < 0x10000 {
            v.push(u as u16);
            proof {
                assert(encode_utf16_scalar(u) =~= seq![u as u16]);
                assert(v@ =~= prev + encode_utf16_scalar(u));
            }
        } else {
            proof {
                lemma_surrogates_of_scalar(u);
            }
            let w = u - 0x10000;
            let hi: u16 = 0xD800 + (w / 0x400) as u16;
            let lo: u16 = 0xDC00 + (w % 0x400) as u16;
            v.push(hi);
            v.push(lo);
            proof {
                assert(encode_utf16_scalar(u) =~= seq![hi, lo]);
                assert(v@ =~= prev + encode_utf16_scalar(u));
            }
        }
        proof {
            assert(encode_utf16(rest) == encode_utf16_scalar(u) + encode_utf16(
                s@.skip(i as int + 1),
            ));
            assert(prev + encode_utf16(rest) =~= v@ + encode_utf16(s@.skip(i as int + 1)));
        }
        i += 1;
    }
    proof {
        assert(s@.skip(n as int) =~= Seq::<char>::empty());
        assert(v@ =~= v@ + encode_utf16(s@.skip(n as int)));
    }
    v
}

/// Decodes a fixed-length wide buffer whole: every unit is decoded, so an
/// embedded terminator stays in the result as a real character.
pub fn decode_wide_units(units: &[u16]) -> (r: String)
    ensures
        r@ == decode_utf16_lossy(units@),
{
    let n = units.len();
    let mut r = String::new();
    let mut i: usize = 0;
    proof {
        assert(units@.skip(0) =~= units@);
        assert(r@ + decode_utf16_lossy(units@.skip(0)) =~= decode_utf16_lossy(units@));
    }
    while i < n
        invariant
            i <= n,
            n == units@.len(),
            decode_utf16_lossy(units@) == r@ + decode_utf16_lossy(units@.skip(i as int)),
        decreases n - i,
    {
        let ghost prev = r@;
        let ghost rest = units@.skip(i as int);
        proof {
            assert(rest[0] == units@[i as int]);
            assert(rest.drop_first() =~= units@.skip(i as int + 1));
        }
        let u = *slice_index_get(units, i);
        if u < 0xD800 || u > 0xDFFF {
            let c = char_from_scalar(u as u32);
            push_char(&mut r, c);
            proof {
                char_u32_cast(c, u as u32);
                assert(decode_utf16_lossy(rest) == seq![(u as u32) as char]
                    + decode_utf16_lossy(units@.skip(i as int + 1)));
                assert(prev + decode_utf16_lossy(rest) =~= r@ + decode_utf16_lossy(
                    units@.skip(i as int + 1),
                ));
            }
            i += 1;
        } else {
            let mut lo: u16 = 0;
            let mut paired = false;
            if u <= 0xDBFF && i + 1 < n {
                lo = *slice_index_get(units, i + 1);
                if 0xDC00 <= lo && lo <= 0xDFFF {
                    paired = true;
                }
            }
            if paired {
                proof {
                    assert(rest.len() >= 2 && rest[1] == units@[i as int + 1]);
                }
                let w: u32 = (u as u32 - 0xD800) * 0x400 + (lo as u32 - 0xDC00);
                let sv: u32 = 0x10000 + w;
                let c = char_from_scalar(sv);
                push_char(&mut r, c);
                proof {
                    char_u32_cast(c, sv);
                    assert(combine_surrogates(u, lo) == sv);
                    assert(rest.skip(2) =~= units@.skip(i as int + 2));
                    assert(decode_utf16_lossy(rest) == seq![combine_surrogates(u, lo) as char]
                        + decode_utf16_lossy(units@.skip(i as int + 2)));
                    assert(prev + decode_utf16_lossy(rest) =~= r@ + decode_utf16_lossy(
                        units@.skip(i as int + 2),
                    ));
                }
                i += 2;
            } else {
                push_char(&mut r, '\u{FFFD}');
                proof {
                    assert(!(is_high_surrogate(rest[0]) && rest.len() >= 2 && is_low_surrogate(
                        rest[1],
                    )));
                    assert(decode_utf16_lossy(rest) == seq!['\u{FFFD}'] + decode_utf16_lossy(
                        units@.skip(i as int + 1),
                    ));
                    assert(prev + decode_utf16_lossy(rest) =~= r@ + decode_utf16_lossy(
                        units@.skip(i as int + 1),
                    ));
                }
                i += 1;
            }
        }
    }
    proof {
        assert(units@.skip(n as int) =~= Seq::<u16>::empty());
        assert(r@ =~= r@ + decode_utf16_lossy(units@.skip(n as int)));
    }
    r
}

/// Decodes a terminated wide buffer: the scan stops before the first
/// terminator unit.  When the buffer is the outgoing wide form of a string
/// whose characters hold no terminator, the decoding returns exactly that
/// string.
pub fn decode_wide_c_string(units: &[u16]) -> (r: String)
    ensures
        r@ == decode_utf16_lossy(prefix_before_zero_wide(units@)),
        forall|s: Seq<char>| !s.contains('\0') && units@ == wide_c_string_units(s) ==> r@ == s,
{
    let n = find_wide_terminator(units);
    proof {
        lemma_first_zero_wide_bounds(units@);
    }
    let prefix = slice_subrange(units, 0, n);
    let r = decode_wide_units(prefix);
    proof {
        assert(prefix@ =~= prefix_before_zero_wide(units@));
        assert forall|s: Seq<char>| !s.contains('\0') && units@ == wide_c_string_units(s) implies
            r@ == s by {
            lemma_encode_utf16_zero(s);
            let e = encode_utf16(s);
            assert(forall|k: int| 0 <= k < e.len() ==> e[k] != 0) by {
                assert(forall|k: int| 0 <= k < e.len() ==> e[k] != 0 || e.contains(e[k]));
            }
            assert(forall|k: int| 0 <= k < e.len() ==> units@[k] == e[k]);
            assert(units@[e.len() as int] == 0);
            lemma_first_zero_wide_is(units@, e.len() as int);
            assert(prefix@ =~= e);
            lemma_wide_round_trip(s);
        }
    }
    r
}

/// Encodes a string into its outgoing wide form: its wide units with one
/// appended terminator unit.
pub fn into_wide_bytes(s: &str) -> (r: Vec<u16>)
    ensures
        r@ == wide_c_string_units(s@),
{
    let mut v = encode_wide(s);
    v.push(0);
    v
}

/// The explicit, fallible wide encoding step: refuses any input that holds
/// an embedded terminator.
pub fn to_wide_c_string(s: &str) -> (r: HostFxrResult<Vec<u16>>)
    ensures
        match r {
            Ok(v) => !s@.contains('\0') && v@ == wide_c_string_units(s@),
            Err(e) => s@.contains('\0') && e == HostFxrError::EmbeddedTerminator,
        },
{
    let mut units = encode_wide(s);
    let n = find_wide_terminator(units.as_slice());
    proof {
        lemma_first_zero_wide_bounds(units@);
        lemma_encode_utf16_zero(s@);
    }
    if n < units.len() {
        proof {
            assert(units@.contains(0)) by {
                assert(units@[n as int] == 0);
            }
        }
        Err(HostFxrError::EmbeddedTerminator)
    } else {
        proof {
            if units@.contains(0) {
                let j = choose|j: int| 0 <= j < units@.len() && units@[j] == 0;
                assert(units@[j] != 0);
            }
        }
        units.push(0);
        Ok(units)
    }
}

/// A string destined for the wide native representation.
#[derive(Debug, Clone)]
pub struct WideString(pub String);

/// A value-to-wide-string conversion.
pub trait IntoWideString {
    /// The characters the conversion carries over.
    spec fn wide_view(self) -> Seq<char>;

    /// Performs the conversion.
    fn into_wide(self) -> (r: WideString)
        ensures
            r.0@ == self.wide_view(),
    ;
}

impl WideString {
    /// The wide units of the carried string, without a terminator.
    pub fn to_units(&self) -> (r: Vec<u16>)
        ensures
            r@ == encode_utf16(self.0@),
    {
        encode_wide(self.0.as_str())
    }
}

impl IntoWideString for &str {
    open spec fn wide_view(self) -> Seq<char> {
        self@
    }

    fn into_wide(self) -> (r: WideString) {
        WideString(self.to_owned())
    }
}

impl IntoWideString for String {
    open spec fn wide_view(self) -> Seq<char> {
        self@
    }

    fn into_wide(self) -> (r: WideString) {
        WideString(self)
    }
}

impl IntoBytes<u16> for &str {
    open spec fn encoded(self) -> Seq<u16> {
        wide_c_string_units(self@)
    }

    fn into_bytes(self) -> (r: Vec<u16>) {
        into_wide_bytes(self)
    }
}

impl IntoString for &[u16] {
    open spec fn decoded(self) -> Seq<char> {
        decode_utf16_lossy(self@)
    }

    fn into_string(self) -> (r: String) {
        decode_wide_units(self)
    }
}

impl IntoString for Vec<u16> {
    open spec fn decoded(self) -> Seq<char> {
        decode_utf16_lossy(self@)
    }

    fn into_string(self) -> (r: String) {
        decode_wide_units(self.as_slice())
    }
}

} // verus!
