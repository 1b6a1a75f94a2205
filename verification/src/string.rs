//! Conversions between host strings and the 8-bit native character
//! representation.
//!
//! Outgoing strings are encoded as UTF-8 code units with a single appended
//! terminator unit; incoming buffers are decoded permissively (invalid
//! sequences are replaced, never fatal).  Two incoming forms exist: a
//! fixed-length buffer is decoded whole, keeping any embedded terminator as a
//! real character, while a terminated buffer is decoded only up to (and
//! excluding) its first terminator unit.

use vstd::prelude::*;
use vstd::slice::slice_index_get;
use vstd::slice::slice_subrange;
use vstd::string::StrSliceExecFns;
use vstd::utf8::char_is_scalar;
use vstd::utf8::char_u32_cast;
use vstd::utf8::decode_utf8;
use vstd::utf8::encode_scalar;
use vstd::utf8::encode_utf8;
use vstd::utf8::encode_utf8_decode_utf8;
use vstd::utf8::encode_utf8_valid_utf8;
use vstd::utf8::has_width_1_encoding;
use vstd::utf8::has_width_2_encoding;
use vstd::utf8::has_width_3_encoding;
use vstd::utf8::is_scalar;
use vstd::utf8::valid_utf8;

use crate::error::HostFxrError;
use crate::error::HostFxrResult;

verus! {

/// A value-to-buffer conversion producing native units of some width.
pub trait IntoBytes<T> {
    /// The buffer the conversion yields, as a mathematical sequence.
    spec fn encoded(self) -> Seq<T>;

    /// Performs the conversion.
    fn into_bytes(self) -> (r: Vec<T>)
        ensures
            r@ == self.encoded(),
    ;
}

/// A buffer-to-string conversion decoding native units of some width.
pub trait IntoString {
    /// The string the conversion yields, as a mathematical sequence.
    spec fn decoded(self) -> Seq<char>;

    /// Performs the conversion.
    fn into_string(self) -> (r: String)
        ensures
            r@ == self.decoded(),
    ;
}

/// The permissive decoding of arbitrary bytes: invalid sequences are
/// replaced, and a valid UTF-8 encoding decodes to exactly the characters it
/// encodes.  The result depends on the bytes alone.
pub uninterp spec fn lossy_utf8(bytes: Seq<u8>) -> Seq<char>;

/// Relies on `String::from_utf8_lossy`: the decoding is a function of the
/// bytes alone, and bytes that form a valid UTF-8 encoding decode to exactly
/// the characters they encode.
#[verifier::external_body]
fn lossy_string_from_utf8(bytes: &[u8]) -> (r: String)
    ensures
        r@ == lossy_utf8(bytes@),
        valid_utf8(bytes@) ==> r@ == decode_utf8(bytes@),
{
    String::from_utf8_lossy(bytes).into_owned()
}

/// The outgoing form of a string: its UTF-8 code units followed by a single
/// terminator unit.
pub open spec fn c_string_units(s: Seq<char>) -> Seq<u8> {
    encode_utf8(s).push(0)
}

/// The position of the first terminator unit, or the length of the buffer
/// when it holds none.
pub open spec fn first_zero(units: Seq<u8>) -> int
    decreases units.len(),
{
    if units.len() == 0 {
        0
    } else if units[0] == 0 {
        0
    } else {
        1 + first_zero(units.drop_first())
    }
}

/// The units that precede the first terminator unit.
pub open spec fn prefix_before_zero(units: Seq<u8>) -> Seq<u8> {
    units.take(first_zero(units))
}

/// `first_zero` points at the first terminator unit: nothing before it is a
/// terminator, and it lies inside the buffer exactly when the buffer holds a
/// terminator at all.
pub proof fn lemma_first_zero_bounds(units: Seq<u8>)
    ensures
        0 <= first_zero(units) <= units.len(),
        forall|k: int| 0 <= k < first_zero(units) ==> units[k] != 0,
        first_zero(units) < units.len() ==> units[first_zero(units)] == 0,
    decreases units.len(),
{
    if units.len() == 0 {
    } else if units[0] == 0 {
    } else {
        lemma_first_zero_bounds(units.drop_first());
        assert forall|k: int| 0 <= k < first_zero(units) implies units[k] != 0 by {
            if k >= 1 {
                assert(units.drop_first()[k - 1] == units[k]);
            }
        }
    }
}

/// Any position with no terminator before it that either sits at a
/// terminator or at the end of the buffer is `first_zero`.
pub proof fn lemma_first_zero_is(units: Seq<u8>, i: int)
    requires
        0 <= i <= units.len(),
        forall|k: int| 0 <= k < i ==> units[k] != 0,
        i < units.len() ==> units[i] == 0,
    ensures
        first_zero(units) == i,
    decreases units.len(),
{
    if units.len() == 0 {
    } else if units[0] == 0 {
        assert(i == 0);
    } else {
        assert(i >= 1);
        lemma_first_zero_is(units.drop_first(), i - 1);
    }
}

/// The single scalar encoding contains a zero byte exactly when the scalar
/// is zero: multi-byte encodings consist of bytes with their high bit set.
proof fn lemma_encode_scalar_zero(v: u32)
    requires
        is_scalar(v),
    ensures
        encode_scalar(v).contains(0) <==> v == 0,
{
    if has_width_1_encoding(v) {
        assert((v & 0x7F) as u8 == 0 <==> v == 0) by (bit_vector)
            requires
                v <= 0x7F,
        ;
        assert(encode_scalar(v) == seq![((v & 0x7F) as u8)]);
        if v == 0 {
            assert(encode_scalar(v)[0] == 0);
        }
    } else if has_width_2_encoding(v) {
        assert(0xC0u8 | ((v >> 6) & 0x1F) as u8 != 0) by (bit_vector);
        assert(0x80u8 | (v & 0x3F) as u8 != 0) by (bit_vector);
    } else if has_width_3_encoding(v) {
        assert(0xE0u8 | ((v >> 12) & 0x0F) as u8 != 0) by (bit_vector);
        assert(0x80u8 | ((v >> 6) & 0x3F) as u8 != 0) by (bit_vector);
        assert(0x80u8 | (v & 0x3F) as u8 != 0) by (bit_vector);
    } else {
        assert(0xF0u8 | ((v >> 18) & 0x7) as u8 != 0) by (bit_vector);
        assert(0x80u8 | ((v >> 12) & 0x3F) as u8 != 0) by (bit_vector);
        assert(0x80u8 | ((v >> 6) & 0x3F) as u8 != 0) by (bit_vector);
        assert(0x80u8 | (v & 0x3F) as u8 != 0) by (bit_vector);
    }
}

/// A UTF-8 encoding holds a zero unit exactly when the encoded characters
/// hold the terminator character.
pub proof fn lemma_encode_utf8_zero(s: Seq<char>)
    ensures
        encode_utf8(s).contains(0) <==> s.contains('\0'),
    decreases s.len(),
{
    if s.len() == 0 {
    } else {
        let v = s[0] as u32;
        char_is_scalar(s[0]);
        char_u32_cast(s[0], v);
        lemma_encode_scalar_zero(v);
        lemma_encode_utf8_zero(s.drop_first());
        let head = encode_scalar(v);
        let tail = encode_utf8(s.drop_first());
        assert(encode_utf8(s) == head + tail);
        assert(v == 0 <==> s[0] == '\0') by {
            if v == 0 {
                assert((0u32 as char) == s[0]);
            }
        }
        if s.contains('\0') {
            let i = choose|i: int| 0 <= i < s.len() && s[i] == '\0';
            if i == 0 {
                let j = choose|j: int| 0 <= j < head.len() && head[j] == 0;
                assert((head + tail)[j] == 0);
            } else {
                assert(s.drop_first()[i - 1] == '\0');
                assert(s.drop_first().contains('\0'));
                let j = choose|j: int| 0 <= j < tail.len() && tail[j] == 0;
                assert((head + tail)[head.len() + j] == 0);
            }
            assert(encode_utf8(s).contains(0));
        }
        if encode_utf8(s).contains(0) {
            let j = choose|j: int| 0 <= j < encode_utf8(s).len() && encode_utf8(s)[j] == 0;
            if j < head.len() {
                assert(head[j] == 0);
                assert(head.contains(0));
                assert(s[0] == '\0');
            } else {
                assert(tail[j - head.len()] == 0);
                assert(tail.contains(0));
                let i = choose|i: int| 0 <= i < s.drop_first().len() && s.drop_first()[i] == '\0';
                assert(s[i + 1] == '\0');
            }
            assert(s.contains('\0'));
        }
    }
}

/// Finds the first terminator unit, or the buffer's length when there is
/// none.  The scan is bounded by the buffer handed in.
pub fn find_terminator(units: &[u8]) -> (r: usize)
    ensures
        r == first_zero(units@),
{
    let n = units.len();
    let mut i: usize = 0;
    while i < n && *slice_index_get(units, i) != 0
        invariant
            0 <= i <= n,
            n == units@.len(),
            forall|k: int| 0 <= k < i ==> units@[k] != 0,
        decreases n - i,
    {
        i += 1;
    }
    proof {
        lemma_first_zero_is(units@, i as int);
    }
    i
}

/// Decodes a fixed-length buffer whole: every unit is decoded, so an
/// embedded terminator stays in the result as a real character.  A buffer
/// that is a UTF-8 encoding decodes to exactly the characters it encodes.
pub fn decode_units(units: &[u8]) -> (r: String)
    ensures
        r@ == lossy_utf8(units@),
        forall|s: Seq<char>| encode_utf8(s) == units@ ==> r@ == s,
{
    let r = lossy_string_from_utf8(units);
    proof {
        assert forall|s: Seq<char>| encode_utf8(s) == units@ implies r@ == s by {
            encode_utf8_valid_utf8(s);
            encode_utf8_decode_utf8(s);
        }
    }
    r
}

/// Decodes a terminated buffer: the scan stops before the first terminator
/// unit and the units before it are decoded permissively.  When the buffer
/// is the outgoing form of a string whose encoding holds no terminator unit,
/// the decoding returns exactly that string.
pub fn decode_c_string(units: &[u8]) -> (r: String)
    ensures
        r@ == lossy_utf8(prefix_before_zero(units@)),
        forall|s: Seq<char>| !s.contains('\0') && units@ == c_string_units(s) ==> r@ == s,
{
    let n = find_terminator(units);
    proof {
        lemma_first_zero_bounds(units@);
    }
    let prefix = slice_subrange(units, 0, n);
    let r = lossy_string_from_utf8(prefix);
    proof {
        assert(prefix@ =~= prefix_before_zero(units@));
        assert forall|s: Seq<char>| !s.contains('\0') && units@ == c_string_units(s) implies r@
            == s by {
            lemma_encode_utf8_zero(s);
            let e = encode_utf8(s);
            assert(forall|k: int| 0 <= k < e.len() ==> e[k] != 0) by {
                assert(forall|k: int| 0 <= k < e.len() ==> e[k] != 0 || e.contains(e[k]));
            }
            assert(forall|k: int| 0 <= k < e.len() ==> units@[k] == e[k]);
            assert(units@[e.len() as int] == 0);
            lemma_first_zero_is(units@, e.len() as int);
            assert(prefix@ =~= e);
            encode_utf8_valid_utf8(s);
            encode_utf8_decode_utf8(s);
        }
    }
    r
}

/// Encodes a string into its outgoing form: its UTF-8 units with one
/// appended terminator unit.  An embedded terminator character is encoded
/// verbatim; use [`to_c_string`] where the input must be free of them.
pub fn into_c_bytes(s: &str) -> (r: Vec<u8>)
    ensures
        r@ == c_string_units(s@),
{
    let mut v = s.as_bytes_vec();
    v.push(0);
    v
}

/// The explicit, fallible encoding step: encodes a string into its outgoing
/// form, refusing any input that holds an embedded terminator.
pub fn to_c_string(s: &str) -> (r: HostFxrResult<Vec<u8>>)
    ensures
        match r {
            Ok(v) => !s@.contains('\0') && v@ == c_string_units(s@),
            Err(e) => s@.contains('\0') && e == HostFxrError::EmbeddedTerminator,
        },
{
    let mut units = s.as_bytes_vec();
    let n = find_terminator(units.as_slice());
    proof {
        lemma_first_zero_bounds(units@);
        lemma_encode_utf8_zero(s@);
    }
    if n < units.len() {
        proof {
            assert(units@.contains(0)) by {
                assert(units@[n as int] == 0);
            }
        }
        Err(HostFxrError::EmbeddedTerminator)
    } else {
        proof {
            if units@.contains(0) {
                let j = choose|j: int| 0 <= j < units@.len() && units@[j] == 0;
                assert(units@[j] != 0);
            }
        }
        units.push(0);
        Ok(units)
    }
}

impl IntoBytes<u8> for &str {
    open spec fn encoded(self) -> Seq<u8> {
        c_string_units(self@)
    }

    fn into_bytes(self) -> (r: Vec<u8>) {
        into_c_bytes(self)
    }
}

impl IntoString for &[u8] {
    open spec fn decoded(self) -> Seq<char> {
        lossy_utf8(self@)
    }

    fn into_string(self) -> (r: String) {
        decode_units(self)
    }
}

} // verus!
