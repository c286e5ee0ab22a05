//! High-entropy passphrase generation: the current time in nanoseconds,
//! written as hexadecimal text, pushed through a one-way 256-bit digest and
//! returned hex-encoded.

use vstd::prelude::*;
use vstd::utf8::encode_utf8;

verus! {

/// A lowercase hexadecimal digit.
pub open spec fn is_hex_char(c: char) -> bool {
    (48 <= c as u32 && c as u32 <= 57) || (97 <= c as u32 && c as u32 <= 102)
}

/// A passphrase as this subsystem produces it: exactly 64 hexadecimal
/// characters, the hex encoding of a 256-bit digest.
pub open spec fn is_passphrase(s: Seq<char>) -> bool {
    s.len() == 64 && forall|i: int| 0 <= i < s.len() ==> is_hex_char(#[trigger] s[i])
}

/// Hexadecimal characters are ASCII, so a sequence of them encodes to UTF-8
/// byte for byte.
pub proof fn lemma_hex_chars_ascii(s: Seq<char>)
    requires
        forall|i: int| 0 <= i < s.len() ==> is_hex_char(#[trigger] s[i]),
    ensures
        vstd::utf8::is_ascii_chars(s),
{
    assert forall|i: int| 0 <= i < s.len() implies '\0' <= #[trigger] s[i] <= '\u{7f}' by {
        let c = s[i];
        let u = c as u32;
        vstd::utf8::char_u32_cast(c, u);
        assert(is_hex_char(c));
        assert(u <= 102);
        assert('\0' <= (u as char) && (u as char) <= '\u{7f}');
        assert((u as char) == c);
    }
}

/// A hexadecimal text encodes to one byte per character and holds no zero
/// byte, so a generated passphrase passes every zero-byte gate on the way
/// into the cryptographic primitives.
pub proof fn lemma_hex_chars_bytes(s: Seq<char>)
    requires
        forall|i: int| 0 <= i < s.len() ==> is_hex_char(#[trigger] s[i]),
    ensures
        encode_utf8(s).len() == s.len(),
        !crate::encoding::has_zero_byte(encode_utf8(s)),
{
    lemma_hex_chars_ascii(s);
    vstd::utf8::is_ascii_chars_encode_utf8(s);
    assert forall|i: int| 0 <= i < encode_utf8(s).len() implies encode_utf8(s)[i] != 0 by {
        assert(s[i] as u8 == encode_utf8(s)[i]);
        let c = s[i];
        let u = c as u32;
        vstd::utf8::char_u32_cast(c, u);
        assert(is_hex_char(c));
        assert(48 <= u <= 102);
    }
}

/// The hex-encoded 256-bit digest that `sha256::digest` computes of the given
/// input bytes; it depends on the input alone.
pub uninterp spec fn sha256_hex(input: Seq<u8>) -> Seq<char>;

/// Relies on `sha256::digest`: the hex encoding of the SHA-256 digest of the
/// input, always 64 lowercase hexadecimal characters.
#[verifier::external_body]
fn sha256_digest(input: &str) -> (r: String)
    ensures
        r@ == sha256_hex(encode_utf8(input@)),
        is_passphrase(r@),
{
    sha256::digest(input)
}

/// Relies on `std::time::SystemTime::now` and `duration_since(UNIX_EPOCH)`:
/// nanoseconds since the epoch, or an error when the clock cannot be read or
/// stands before the epoch.
#[verifier::external_body]
fn current_time_nanos() -> (r: Result<u128, String>)
{
    match std::time::SystemTime::now().duration_since(std::time::UNIX_EPOCH) {
        Ok(duration) => Ok(duration.as_nanos()),
        Err(error) => Err(format!("unable to get system time: {}", error)),
    }
}

/// The uppercase hexadecimal digit for a value below sixteen.
pub open spec fn hex_digit(d: nat) -> char {
    if d == 0 {
        '0'
    } else if d == 1 {
        '1'
    } else if d == 2 {
        '2'
    } else if d == 3 {
        '3'
    } else if d == 4 {
        '4'
    } else if d == 5 {
        '5'
    } else if d == 6 {
        '6'
    } else if d == 7 {
        '7'
    } else if d == 8 {
        '8'
    } else if d == 9 {
        '9'
    } else if d == 10 {
        'A'
    } else if d == 11 {
        'B'
    } else if d == 12 {
        'C'
    } else if d == 13 {
        'D'
    } else if d == 14 {
        'E'
    } else {
        'F'
    }
}

/// The uppercase hexadecimal text of a number, most significant digit first,
/// without leading zeros (a single digit for values below sixteen).
pub open spec fn hex_of(n: nat) -> Seq<char>
    decreases n,
{
    if n < 16 {
        seq![hex_digit(n)]
    } else {
        hex_of(n / 16).push(hex_digit(n % 16))
    }
}

fn hex_literal(d: u128) -> (r: &'static str)
    requires
        d < 16,
    ensures
        r@ == seq![hex_digit(d as nat)],
{
    let s: &'static str = if d == 0 {
        "0"
    } else if d == 1 {
        "1"
    } else if d == 2 {
        "2"
    } else if d == 3 {
        "3"
    } else if d == 4 {
        "4"
    } else if d == 5 {
        "5"
    } else if d == 6 {
        "6"
    } else if d == 7 {
        "7"
    } else if d == 8 {
        "8"
    } else if d == 9 {
        "9"
    } else if d == 10 {
        "A"
    } else if d == 11 {
        "B"
    } else if d == 12 {
        "C"
    } else if d == 13 {
        "D"
    } else if d == 14 {
        "E"
    } else {
        "F"
    };
    proof {
        reveal_strlit("0");
        reveal_strlit("1");
        reveal_strlit("2");
        reveal_strlit("3");
        reveal_strlit("4");
        reveal_strlit("5");
        reveal_strlit("6");
        reveal_strlit("7");
        reveal_strlit("8");
        reveal_strlit("9");
        reveal_strlit("A");
        reveal_strlit("B");
        reveal_strlit("C");
        reveal_strlit("D");
        reveal_strlit("E");
        reveal_strlit("F");
        assert(s@ =~= seq![hex_digit(d as nat)]);
    }
    s
}

fn to_hex_upper(n: u128) -> (r: String)
    ensures
        r@ == hex_of(n as nat),
    decreases n,
{
    if n < 16 {
        String::from_str(hex_literal(n))
    } else {
        let mut s = to_hex_upper(n / 16);
        s.append(hex_literal(n % 16));
        proof {
            assert(hex_of((n / 16) as nat) + seq![hex_digit((n % 16) as nat)] =~= hex_of(
                n as nat,
            ));
        }
        s
    }
}

/// Generates a fresh passphrase: the digest of the hexadecimal text of the
/// current time in nanoseconds. Always 64 hexadecimal characters on success;
/// fails only when the system clock cannot be read.
pub fn generate_passphrase() -> (r: Result<String, String>)
    ensures
        r matches Ok(p) ==> is_passphrase(p@),
        r matches Ok(p) ==> exists|n: nat| p@ == sha256_hex(encode_utf8(#[trigger] hex_of(n))),
{
    let time_in_nanos = match current_time_nanos() {
        Ok(n) => n,
        Err(message) => {
            return Err(message);
        },
    };
    let hex_time = to_hex_upper(time_in_nanos);
    let digest = sha256_digest(hex_time.as_str());
    Ok(digest)
}

} // verus!
