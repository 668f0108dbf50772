//! Decimal rendering (for `Content-Length`) and decimal parsing (for the
//! advisory `Content-Length` request header).

use vstd::prelude::*;

verus! {

/// The shortest decimal digit string for `n` (so `0` renders as `"0"`).
pub open spec fn sp_dec_repr(n: nat) -> Seq<u8>
    decreases n,
{
    if n < 10 {
        seq![(48 + n) as u8]
    } else {
        sp_dec_repr(n / 10).push((48 + n % 10) as u8)
    }
}

/// Renders `n` in decimal.
pub fn dec_repr(n: usize) -> (r: Vec<u8>)
    ensures
        r@ == sp_dec_repr(n as nat),
    decreases n,
{
    if n < 10 {
        let mut r: Vec<u8> = Vec::new();
        r.push(48 + n as u8);
        proof {
            assert(r@ =~= sp_dec_repr(n as nat));
        }
        r
    } else {
        let mut r = dec_repr(n / 10);
        r.push(48 + (n % 10) as u8);
        r
    }
}

/// Value of one ASCII digit; zero on anything else.
pub open spec fn sp_digit(b: u8) -> nat {
    if 48 <= b <= 57 {
        (b - 48) as nat
    } else {
        0
    }
}

/// `s` is one or more ASCII digits.
pub open spec fn sp_is_digits(s: Seq<u8>) -> bool {
    s.len() >= 1 && forall|i: int| 0 <= i < s.len() ==> 48 <= #[trigger] s[i] <= 57
}

/// The number the digit string `s` denotes.
pub open spec fn sp_dec_value(s: Seq<u8>) -> nat
    decreases s.len(),
{
    if s.len() == 0 {
        0
    } else {
        sp_dec_value(s.drop_last()) * 10 + sp_digit(s.last())
    }
}

/// What parsing `s` as an unsigned decimal yields: its value when `s` is all
/// digits and the value fits in `usize`, nothing otherwise.
pub open spec fn sp_parse_usize(s: Seq<u8>) -> Option<usize> {
    if sp_is_digits(s) && sp_dec_value(s) <= usize::MAX {
        Some(sp_dec_value(s) as usize)
    } else {
        None
    }
}

/// A digit string's value only grows as digits are appended.
proof fn lemma_dec_value_prefix(s: Seq<u8>, k: int)
    requires
        0 <= k <= s.len(),
    ensures
        sp_dec_value(s) >= sp_dec_value(s.subrange(0, k)),
    decreases s.len() - k,
{
    if k == s.len() {
        assert(s.subrange(0, k) =~= s);
    } else {
        assert(s.subrange(0, k + 1).drop_last() =~= s.subrange(0, k));
        assert(sp_dec_value(s.subrange(0, k + 1)) == sp_dec_value(s.subrange(0, k)) * 10
            + sp_digit(s.subrange(0, k + 1).last()));
        lemma_dec_value_prefix(s, k + 1);
    }
}

/// Parses `s` as an unsigned decimal number.
pub fn parse_usize(s: &[u8]) -> (r: Option<usize>)
    ensures
        r == sp_parse_usize(s@),
{
    if s.len() == 0 {
        return None;
    }
    let mut acc: usize = 0;
    let mut i: usize = 0;
    while i < s.len()
        invariant
            1 <= s@.len(),
            i <= s@.len(),
            forall|j: int| 0 <= j < i ==> 48 <= #[trigger] s@[j] <= 57,
            acc == sp_dec_value(s@.subrange(0, i as int)),
        decreases s@.len() - i,
    {
        let b = s[i];
        if b < 48 || b > 57 {
            return None;
        }
        let d = (b - 48) as usize;
        proof {
            assert(s@.subrange(0, i + 1).drop_last() =~= s@.subrange(0, i as int));
        }
        if acc > (usize::MAX - d) / 10 {
            proof {
                lemma_dec_value_prefix(s@, i + 1);
            }
            return None;
        }
        acc = acc * 10 + d;
        i += 1;
    }
    proof {
        assert(s@.subrange(0, s@.len() as int) =~= s@);
    }
    Some(acc)
}

} // verus!
