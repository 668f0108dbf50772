//! Byte-sequence utilities the protocol engine is built on: substring search
//! and separator splitting.

use vstd::prelude::*;

verus! {

/// `sep` occurs in `s` at position `i`.
pub open spec fn match_at(s: Seq<u8>, sep: Seq<u8>, i: int) -> bool {
    0 <= i && i + sep.len() <= s.len() && s.subrange(i, i + sep.len() as int) == sep
}

/// Position of the first occurrence of `sep` in `s` at or after `from`.
pub open spec fn sp_find_from(s: Seq<u8>, sep: Seq<u8>, from: int) -> Option<int>
    decreases s.len() - from,
{
    if from < 0 || from + sep.len() > s.len() {
        None
    } else if sep.len() == 0 || s.subrange(from, from + sep.len() as int) == sep {
        Some(from)
    } else {
        sp_find_from(s, sep, from + 1)
    }
}

/// `sp_find_from` returns exactly the least match position at or after `from`.
pub proof fn lemma_find_from(s: Seq<u8>, sep: Seq<u8>, from: int)
    requires
        0 <= from,
    ensures
        match sp_find_from(s, sep, from) {
            Some(i) => from <= i && match_at(s, sep, i) && (forall|j: int|
                from <= j < i ==> !match_at(s, sep, j)),
            None => forall|j: int| from <= j ==> !match_at(s, sep, j),
        },
    decreases s.len() - from,
{
    if from + sep.len() > s.len() {
    } else if sep.len() == 0 || s.subrange(from, from + sep.len() as int) == sep {
        if sep.len() == 0 {
            assert(s.subrange(from, from + sep.len() as int) =~= sep);
        }
    } else {
        lemma_find_from(s, sep, from + 1);
    }
}

/// Splitting `s` on `sep`, left to right, non-overlapping; always at least one
/// piece.
pub open spec fn sp_split(s: Seq<u8>, sep: Seq<u8>) -> Seq<Seq<u8>>
    decreases s.len(),
{
    if sep.len() == 0 {
        seq![s]
    } else {
        match sp_find_from(s, sep, 0) {
            None => seq![s],
            Some(i) => if 0 <= i && i + sep.len() <= s.len() {
                seq![s.subrange(0, i)] + sp_split(
                    s.subrange(i + sep.len() as int, s.len() as int),
                    sep,
                )
            } else {
                seq![s]
            },
        }
    }
}

pub proof fn lemma_split_len(s: Seq<u8>, sep: Seq<u8>)
    ensures
        sp_split(s, sep).len() >= 1,
{
}

/// Where `sep` occurs at `k` and nowhere earlier, the search finds `k`.
pub proof fn lemma_find_is(s: Seq<u8>, sep: Seq<u8>, k: int)
    requires
        match_at(s, sep, k),
        forall|j: int| 0 <= j < k ==> !match_at(s, sep, j),
    ensures
        sp_find_from(s, sep, 0) == Some(k),
{
    lemma_find_from(s, sep, 0);
    match sp_find_from(s, sep, 0) {
        None => {
            assert(!match_at(s, sep, k));
        },
        Some(i) => {
            if i < k {
                assert(!match_at(s, sep, i));
            }
            if k < i {
                assert(!match_at(s, sep, k));
            }
        },
    }
}

/// Where the first occurrence of `sep` is known to be at `k`, the split peels
/// off the prefix before `k`.
pub proof fn lemma_split_at_first(s: Seq<u8>, sep: Seq<u8>, k: int)
    requires
        sep.len() >= 1,
        match_at(s, sep, k),
        forall|j: int| 0 <= j < k ==> !match_at(s, sep, j),
    ensures
        sp_split(s, sep) == seq![s.subrange(0, k)] + sp_split(
            s.subrange(k + sep.len() as int, s.len() as int),
            sep,
        ),
{
    lemma_find_from(s, sep, 0);
    match sp_find_from(s, sep, 0) {
        None => {
            assert(!match_at(s, sep, k));
        },
        Some(i) => {
            if i < k {
                assert(!match_at(s, sep, i));
            }
            if k < i {
                assert(!match_at(s, sep, k));
            }
            assert(i == k);
        },
    }
}

/// A sequence free of `sep` does not split.
pub proof fn lemma_split_none(s: Seq<u8>, sep: Seq<u8>)
    requires
        sep.len() >= 1,
        forall|j: int| !match_at(s, sep, j),
    ensures
        sp_split(s, sep) == seq![s],
{
    lemma_find_from(s, sep, 0);
}

/// ASCII lowercasing, byte by byte.
pub open spec fn sp_lower(s: Seq<u8>) -> Seq<u8> {
    s.map_values(|b: u8| if 65 <= b <= 90 { (b + 32) as u8 } else { b })
}

/// Lowercases the ASCII letters of `s`.
pub fn lower_bytes(s: &[u8]) -> (r: Vec<u8>)
    ensures
        r@ == sp_lower(s@),
{
    let mut r: Vec<u8> = Vec::new();
    let mut i: usize = 0;
    while i < s.len()
        invariant
            i <= s@.len(),
            r@ == sp_lower(s@.subrange(0, i as int)),
        decreases s@.len() - i,
    {
        let b = s[i];
        let low = if 65 <= b && b <= 90 {
            b + 32
        } else {
            b
        };
        r.push(low);
        proof {
            assert(s@.subrange(0, i + 1).drop_last() =~= s@.subrange(0, i as int));
            assert(r@ =~= sp_lower(s@.subrange(0, i + 1)));
        }
        i += 1;
    }
    proof {
        assert(s@.subrange(0, s@.len() as int) =~= s@);
    }
    r
}

/// Appends all of `src` to `out`.
pub fn push_all(out: &mut Vec<u8>, src: &[u8])
    ensures
        final(out)@ == old(out)@ + src@,
{
    let mut i: usize = 0;
    while i < src.len()
        invariant
            i <= src@.len(),
            out@ == old(out)@ + src@.subrange(0, i as int),
        decreases src@.len() - i,
    {
        out.push(src[i]);
        proof {
            assert(out@ =~= old(out)@ + src@.subrange(0, i + 1));
        }
        i += 1;
    }
    proof {
        assert(src@.subrange(0, src@.len() as int) =~= src@);
    }
}

/// Reports whether the two byte slices hold the same bytes.
pub fn bytes_eq(a: &[u8], b: &[u8]) -> (r: bool)
    ensures
        r == (a@ == b@),
{
    if a.len() != b.len() {
        assert(a@.len() != b@.len());
        return false;
    }
    let n = a.len();
    let mut i: usize = 0;
    while i < n
        invariant
            n == a@.len() && n == b@.len(),
            i <= n,
            forall|j: int| 0 <= j < i ==> a@[j] == b@[j],
        decreases n - i,
    {
        if a[i] != b[i] {
            return false;
        }
        i += 1;
    }
    proof {
        assert(a@ =~= b@);
    }
    true
}

/// Finds the first occurrence of `sep` in `s` at or after `from`.
pub fn find_from(s: &[u8], sep: &[u8], from: usize) -> (r: Option<usize>)
    ensures
        match r {
            Some(i) => sp_find_from(s@, sep@, from as int) == Some(i as int),
            None => sp_find_from(s@, sep@, from as int) is None,
        },
{
    let mut i: usize = from;
    loop
        invariant
            from <= i,
            sp_find_from(s@, sep@, from as int) == sp_find_from(s@, sep@, i as int),
        decreases s@.len() + 1 - i,
    {
        if i > s.len() || sep.len() > s.len() - i {
            return None;
        }
        let window = vstd::slice::slice_subrange(s, i, i + sep.len());
        if bytes_eq(window, sep) {
            return Some(i);
        }
        proof {
            assert(sep@.len() > 0) by {
                if sep@.len() == 0 {
                    assert(window@ =~= sep@);
                }
            }
        }
        i += 1;
    }
}

/// Splits `s` on `sep`, left to right, non-overlapping.
pub fn split_bytes(s: &[u8], sep: &[u8]) -> (r: Vec<Vec<u8>>)
    requires
        sep@.len() >= 1,
    ensures
        r.deep_view() == sp_split(s@, sep@),
        r.len() >= 1,
{
    let mut acc: Vec<Vec<u8>> = Vec::new();
    let mut rest: &[u8] = s;
    proof {
        assert(acc.deep_view() + sp_split(rest@, sep@) =~~= sp_split(s@, sep@));
    }
    loop
        invariant
            sep@.len() >= 1,
            acc.deep_view() + sp_split(rest@, sep@) == sp_split(s@, sep@),
        decreases rest@.len(),
    {
        let ghost old_acc = acc.deep_view();
        let ghost old_rest = rest@;
        match find_from(rest, sep, 0) {
            None => {
                let piece = vstd::slice::slice_to_vec(rest);
                acc.push(piece);
                proof {
                    assert(sp_split(old_rest, sep@) == seq![old_rest]);
                    assert(acc.deep_view() =~~= old_acc + seq![old_rest]);
                    assert(acc.deep_view() =~~= sp_split(s@, sep@));
                    lemma_split_len(s@, sep@);
                }
                return acc;
            },
            Some(i) => {
                proof {
                    lemma_find_from(rest@, sep@, 0);
                }
                let piece = vstd::slice::slice_to_vec(vstd::slice::slice_subrange(rest, 0, i));
                acc.push(piece);
                let n = rest.len();
                rest = vstd::slice::slice_subrange(rest, i + sep.len(), n);
                proof {
                    assert(acc.deep_view() =~~= old_acc + seq![old_rest.subrange(0, i as int)]);
                    assert(sp_split(old_rest, sep@) == seq![old_rest.subrange(0, i as int)]
                        + sp_split(rest@, sep@));
                    assert(acc.deep_view() + sp_split(rest@, sep@) =~~= sp_split(s@, sep@));
                }
            },
        }
    }
}

} // verus!
