//! Conversions between stored byte blobs and the textual key encodings the
//! capability objects carry, and the zero-padding strip applied to recovered
//! plaintext buffers.

use vstd::prelude::*;
use vstd::utf8::{decode_utf8, encode_utf8, valid_utf8};

verus! {

/// Relies on `String::from_utf8`: returns the string whose UTF-8 encoding is
/// exactly the input, and fails precisely on input that is not valid UTF-8.
#[verifier::external_body]
pub fn bytes_to_string(bytes: Vec<u8>) -> (r: Result<String, String>)
    ensures
        r is Ok <==> valid_utf8(bytes@),
        r matches Ok(s) ==> encode_utf8(s@) == bytes@ && s@ == decode_utf8(bytes@),
{
    String::from_utf8(bytes).map_err(|e| e.to_string())
}

/// Whether the byte sequence holds a zero byte anywhere. `CString`-based
/// bindings reject such input, so callers test for it before handing text on.
pub open spec fn has_zero_byte(bytes: Seq<u8>) -> bool {
    exists|i: int| 0 <= i < bytes.len() && bytes[i] == 0
}

/// Tests whether the buffer holds a zero byte anywhere.
pub fn contains_zero_byte(bytes: &[u8]) -> (r: bool)
    ensures
        r == has_zero_byte(bytes@),
{
    let n = bytes.len();
    let mut i: usize = 0;
    while i < n
        invariant
            i <= n,
            n == bytes@.len(),
            forall|j: int| 0 <= j < i ==> bytes@[j] != 0,
        decreases n - i,
    {
        if bytes[i] == 0 {
            return true;
        }
        i += 1;
    }
    false
}

/// Stored encodings pin their text down: two texts whose UTF-8 encodings are
/// the same byte blob are the same text. Capability objects read back from a
/// populated store are therefore byte-identical to the persisted material,
/// call after call.
pub proof fn lemma_encode_utf8_injective(a: Seq<char>, b: Seq<char>)
    requires
        encode_utf8(a) == encode_utf8(b),
    ensures
        a == b,
{
    vstd::utf8::encode_utf8_decode_utf8(a);
    vstd::utf8::encode_utf8_decode_utf8(b);
}

/// The sequence with every trailing zero byte removed.
pub open spec fn strip_trailing_zeros(s: Seq<u8>) -> Seq<u8>
    decreases s.len(),
{
    if s.len() == 0 {
        s
    } else if s.last() == 0 {
        strip_trailing_zeros(s.drop_last())
    } else {
        s
    }
}

/// Stripping trailing zeros leaves a sequence that does not end in zero
/// untouched: recovered plaintext that carries no trailing zero of its own
/// survives the unpadding step exactly.
pub proof fn lemma_strip_trailing_zeros_id(s: Seq<u8>)
    requires
        s.len() == 0 || s.last() != 0,
    ensures
        strip_trailing_zeros(s) == s,
{
}

/// Zero-padding on the right is invisible to the strip: stripping a sequence
/// extended by zeros gives the same result as stripping the sequence itself.
pub proof fn lemma_strip_trailing_zeros_pad(s: Seq<u8>, padded: Seq<u8>)
    requires
        s.len() <= padded.len(),
        padded.subrange(0, s.len() as int) == s,
        forall|i: int| s.len() <= i < padded.len() ==> padded[i] == 0,
    ensures
        strip_trailing_zeros(padded) == strip_trailing_zeros(s),
    decreases padded.len(),
{
    if padded.len() > s.len() {
        assert(padded.last() == 0);
        assert(padded.drop_last().subrange(0, s.len() as int) =~= padded.subrange(
            0,
            s.len() as int,
        ));
        lemma_strip_trailing_zeros_pad(s, padded.drop_last());
    } else {
        assert(padded =~= s);
    }
}

/// Removes every trailing zero byte from the buffer.
pub fn strip_trailing_zero_bytes(buffer: Vec<u8>) -> (r: Vec<u8>)
    ensures
        r@ == strip_trailing_zeros(buffer@),
{
    let mut out = buffer;
    loop
        invariant
            strip_trailing_zeros(out@) == strip_trailing_zeros(buffer@),
        decreases out@.len(),
    {
        let n = out.len();
        if n == 0 {
            return out;
        }
        if out[n - 1] != 0 {
            return out;
        }
        let ghost prev = out@;
        let _ = out.pop();
        proof {
            assert(prev.last() == 0);
            assert(strip_trailing_zeros(prev) == strip_trailing_zeros(prev.drop_last()));
        }
    }
}

} // verus!
