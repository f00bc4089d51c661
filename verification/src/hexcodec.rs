//! Lowercase hex encoding and decoding of byte sequences, with an exact
//! model of both directions and a proof that they invert each other.

use vstd::prelude::*;
use vstd::string::{StrSliceExecFns, StringExecFns};

verus! {

/// The character that encodes a hex digit (lower case for 10..15).
pub open spec fn hex_digit_char(n: u8) -> char
    recommends
        n < 16,
{
    if n < 10 {
        (48 + n) as char
    } else {
        (87 + n) as char
    }
}

/// Lowercase hex encoding: two digits per byte, high nibble first.
pub open spec fn hex_of(bytes: Seq<u8>) -> Seq<char> {
    Seq::new(
        bytes.len() * 2,
        |i: int|
            if i % 2 == 0 {
                hex_digit_char(bytes[i / 2] / 16)
            } else {
                hex_digit_char(bytes[i / 2] % 16)
            },
    )
}

/// Whether a character is a hex digit (either case).
pub open spec fn is_hex_char(c: char) -> bool {
    let v = c as u32;
    (48 <= v <= 57) || (97 <= v <= 102) || (65 <= v <= 70)
}

/// The value of a hex digit character.
pub open spec fn hex_char_value(c: char) -> u8
    recommends
        is_hex_char(c),
{
    let v = c as u32;
    if 48 <= v <= 57 {
        (v - 48) as u8
    } else if 97 <= v <= 102 {
        (v - 87) as u8
    } else {
        (v - 55) as u8
    }
}

/// A string decodes as hex when its length is even and every character is a
/// hex digit.
pub open spec fn valid_hex(s: Seq<char>) -> bool {
    &&& s.len() % 2 == 0
    &&& forall|i: int| 0 <= i < s.len() ==> is_hex_char(#[trigger] s[i])
}

/// The bytes a valid hex string decodes to.
pub open spec fn hex_decode(s: Seq<char>) -> Seq<u8> {
    Seq::new(
        s.len() / 2,
        |i: int| (16 * hex_char_value(s[2 * i]) + hex_char_value(s[2 * i + 1])) as u8,
    )
}

/// The two characters of the digit pair starting at `i` are not both hex
/// digits.
pub open spec fn hex_group_invalid(s: Seq<char>, i: int) -> bool {
    !is_hex_char(s[i]) || !is_hex_char(s[i + 1])
}

/// Encoding any byte sequence yields a valid hex string that decodes back to
/// the same bytes.
pub proof fn lemma_hex_round_trip(bytes: Seq<u8>)
    ensures
        hex_of(bytes).len() == 2 * bytes.len(),
        valid_hex(hex_of(bytes)),
        hex_decode(hex_of(bytes)) =~= bytes,
{
    let s = hex_of(bytes);
    assert forall|i: int| 0 <= i < s.len() implies is_hex_char(#[trigger] s[i]) by {
        let b = bytes[i / 2];
        assert(b / 16 < 16 && b % 16 < 16);
    }
    assert forall|i: int| 0 <= i < bytes.len() implies hex_decode(s)[i] == bytes[i] by {
        let b = bytes[i];
        assert(s[2 * i] == hex_digit_char(b / 16));
        assert(s[2 * i + 1] == hex_digit_char(b % 16));
        assert(hex_char_value(hex_digit_char(b / 16)) == b / 16);
        assert(hex_char_value(hex_digit_char(b % 16)) == b % 16);
        assert(16 * (b / 16) + b % 16 == b);
    }
}

/// Encodes bytes as a lowercase hex string, two characters per byte.
pub fn bytes_to_hex(data: &[u8]) -> (r: String)
    ensures
        r@ == hex_of(data@),
        r@.len() == 2 * data@.len(),
{
    let mut ascii: Vec<u8> = Vec::new();
    let mut i: usize = 0;
    while i < data.len()
        invariant
            i <= data@.len(),
            ascii@.len() == 2 * i,
            forall|j: int|
                0 <= j < ascii@.len() ==> #[trigger] ascii@[j] == hex_of(data@)[j] as u8
                    && ascii@[j] < 128,
        decreases data@.len() - i,
    {
        let b = data[i];
        let hi = b / 16;
        let lo = b % 16;
        let hi_c: u8 = if hi < 10 {
            48 + hi
        } else {
            87 + hi
        };
        let lo_c: u8 = if lo < 10 {
            48 + lo
        } else {
            87 + lo
        };
        ascii.push(hi_c);
        ascii.push(lo_c);
        proof {
            assert(hex_of(data@)[2 * i as int] == hex_digit_char(hi));
            assert(hex_of(data@)[2 * i as int + 1] == hex_digit_char(lo));
        }
        i += 1;
    }
    let s = crate::primitives::ascii_to_string(ascii);
    proof {
        assert(s@ =~= hex_of(data@));
    }
    s
}

/// The value of a hex digit character, or nothing when the character is not
/// a hex digit.
fn hex_char_value_exec(c: char) -> (r: Option<u8>)
    ensures
        r is Some <==> is_hex_char(c),
        r matches Some(v) ==> v == hex_char_value(c),
{
    let v = c as u32;
    if 48 <= v && v <= 57 {
        Some((v - 48) as u8)
    } else if 97 <= v && v <= 102 {
        Some((v - 87) as u8)
    } else if 65 <= v && v <= 70 {
        Some((v - 55) as u8)
    } else {
        None
    }
}

/// Decodes a hex string into bytes. Fails on an odd length, and on the first
/// digit pair holding a character that is not a hex digit, naming that pair's
/// position — all before any use of the data.
pub fn hex_to_bytes(hex: &str) -> (r: Result<Vec<u8>, String>)
    ensures
        r is Ok <==> valid_hex(hex@),
        r matches Ok(b) ==> b@ == hex_decode(hex@),
        hex@.len() % 2 != 0 ==> (r matches Err(m) ==> m@ == "Invalid hex string length"@),
        hex@.len() % 2 == 0 ==> (r matches Err(m) ==> exists|i: int|
            #[trigger] hex_group_invalid(hex@, i) && 0 <= i && i % 2 == 0 && i + 1 < hex@.len()
                && (forall|j: int| 0 <= j < i ==> is_hex_char(#[trigger] hex@[j])) && m@
                == "Invalid hex character at position "@ + crate::decfmt::dec_of(i as nat)),
{
    let n = hex.unicode_len();
    if n % 2 != 0 {
        return Err(String::from_str("Invalid hex string length"));
    }
    let mut out: Vec<u8> = Vec::new();
    let mut i: usize = 0;
    while i < n
        invariant
            n == hex@.len(),
            n % 2 == 0,
            i % 2 == 0,
            i <= n,
            out@.len() == i / 2,
            forall|j: int| 0 <= j < i ==> is_hex_char(#[trigger] hex@[j]),
            forall|j: int| 0 <= j < out@.len() ==> #[trigger] out@[j] == hex_decode(hex@)[j],
        decreases n - i,
    {
        let c1 = hex.get_char(i);
        let c2 = hex.get_char(i + 1);
        let v1 = match hex_char_value_exec(c1) {
            Some(v) => v,
            None => {
                let m = String::from_str("Invalid hex character at position ").concat(
                    crate::decfmt::usize_to_dec(i).as_str(),
                );
                proof {
                    assert(hex_group_invalid(hex@, i as int));
                }
                return Err(m);
            },
        };
        let v2 = match hex_char_value_exec(c2) {
            Some(v) => v,
            None => {
                let m = String::from_str("Invalid hex character at position ").concat(
                    crate::decfmt::usize_to_dec(i).as_str(),
                );
                proof {
                    assert(hex_group_invalid(hex@, i as int));
                }
                return Err(m);
            },
        };
        out.push(16 * v1 + v2);
        i += 2;
    }
    Ok(out)
}

} // verus!
