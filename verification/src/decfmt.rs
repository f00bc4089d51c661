//! Decimal rendering of lengths for error messages, with an exact model.

use vstd::prelude::*;

verus! {

/// The character for one decimal digit.
pub open spec fn dec_digit_char(d: nat) -> char
    recommends
        d < 10,
{
    ((48 + d % 10) as u8) as char
}

/// The decimal rendering of a number: most significant digit first, no
/// leading zeros (zero itself renders as one digit).
pub open spec fn dec_of(n: nat) -> Seq<char>
    decreases n,
{
    if n < 10 {
        seq![dec_digit_char(n)]
    } else {
        dec_of(n / 10) + seq![dec_digit_char(n % 10)]
    }
}

/// The characters of a digit buffer read back to front.
spec fn rev_chars(s: Seq<u8>) -> Seq<char> {
    Seq::new(s.len(), |i: int| s[s.len() - 1 - i] as char)
}

/// Renders a number in decimal.
pub fn usize_to_dec(n: usize) -> (r: String)
    ensures
        r@ == dec_of(n as nat),
{
    // Least significant digit first.
    let mut rev: Vec<u8> = Vec::new();
    let mut m: usize = n;
    loop
        invariant_except_break
            dec_of(n as nat) =~= dec_of(m as nat) + rev_chars(rev@),
        invariant
            forall|j: int| 0 <= j < rev@.len() ==> 48 <= #[trigger] rev@[j] <= 57,
        ensures
            dec_of(n as nat) =~= rev_chars(rev@),
        decreases m,
    {
        let d: u8 = (m % 10) as u8;
        let ghost old_rev = rev@;
        rev.push(48 + d);
        proof {
            assert(rev_chars(rev@) =~= seq![dec_digit_char(m as nat % 10)] + rev_chars(old_rev));
        }
        if m < 10 {
            break;
        }
        m = m / 10;
    }
    proof {
        assert(dec_of(n as nat) =~= rev_chars(rev@));
    }

    // Reverse into reading order.
    let len = rev.len();
    let mut out: Vec<u8> = Vec::new();
    let mut k: usize = 0;
    while k < len
        invariant
            len == rev@.len(),
            k <= len,
            out@.len() == k,
            forall|j: int| 0 <= j < rev@.len() ==> 48 <= #[trigger] rev@[j] <= 57,
            forall|j: int| 0 <= j < k ==> #[trigger] out@[j] == rev@[len - 1 - j],
        decreases len - k,
    {
        out.push(rev[len - 1 - k]);
        k += 1;
    }
    let s = crate::primitives::ascii_to_string(out);
    proof {
        assert(s@ =~= dec_of(n as nat));
    }
    s
}

} // verus!
