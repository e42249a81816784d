//! Byte-sequence ground work: splitting on a separator, equality, and
//! subrange extraction. The forced command splits on spaces, the auth
//! record on newlines, and repository paths on slashes, all through the
//! one splitter proved here.

use vstd::prelude::*;

verus! {

/// Index of the first occurrence of `sep` in `s`, or `s.len()` if absent.
pub open spec fn first_sep(s: Seq<u8>, sep: u8) -> nat
    decreases s.len(),
{
    if s.len() == 0 {
        0
    } else if s[0] == sep {
        0
    } else {
        1 + first_sep(s.skip(1), sep)
    }
}

/// Where the first separator stands is enough to pin `first_sep`.
pub proof fn lemma_first_sep_at(s: Seq<u8>, sep: u8, j: int)
    requires
        0 <= j <= s.len(),
        forall|k: int| 0 <= k < j ==> s[k] != sep,
        j < s.len() ==> s[j] == sep,
    ensures
        first_sep(s, sep) == j,
    decreases s.len(),
{
    if s.len() == 0 {
    } else if s[0] == sep {
        if j > 0 {
            assert(s[0] != sep);
        }
    } else {
        assert(j >= 1) by {
            if j == 0 {
                assert(s[0] == sep);
            }
        }
        assert forall|k: int| 0 <= k < j - 1 implies s.skip(1)[k] != sep by {
            assert(s.skip(1)[k] == s[k + 1]);
        }
        if j - 1 < s.skip(1).len() {
            assert(s.skip(1)[j - 1] == s[j]);
        }
        lemma_first_sep_at(s.skip(1), sep, j - 1);
    }
}

/// `s` split on `sep`: the tokens between separators, empty tokens kept.
pub open spec fn spec_split(s: Seq<u8>, sep: u8) -> Seq<Seq<u8>>
    decreases s.len(),
{
    let i = first_sep(s, sep) as int;
    if i >= s.len() {
        seq![s]
    } else {
        seq![s.take(i)] + spec_split(s.skip(i + 1), sep)
    }
}

/// Unfolds one round of `spec_split` at a known separator position.
pub proof fn lemma_split_step(s: Seq<u8>, sep: u8, j: int)
    requires
        0 <= j <= s.len(),
        forall|k: int| 0 <= k < j ==> s[k] != sep,
        j < s.len() ==> s[j] == sep,
    ensures
        j == s.len() ==> spec_split(s, sep) == seq![s],
        j < s.len() ==> spec_split(s, sep) == seq![s.subrange(0, j)] + spec_split(
            s.skip(j + 1),
            sep,
        ),
{
    lemma_first_sep_at(s, sep, j);
    if j < s.len() {
        assert(s.take(j) =~= s.subrange(0, j));
    }
}

/// The views of a vector of byte tokens.
pub open spec fn views(ts: Seq<Vec<u8>>) -> Seq<Seq<u8>> {
    ts.map_values(|t: Vec<u8>| t@)
}

/// Splits `s` on `sep`, as `spec_split` says.
pub fn split_bytes(s: &[u8], sep: u8) -> (r: Vec<Vec<u8>>)
    ensures
        views(r@) == spec_split(s@, sep),
        r@.len() >= 1,
{
    let mut out: Vec<Vec<u8>> = Vec::new();
    let mut cur: Vec<u8> = Vec::new();
    let ghost mut start: int = 0;
    let mut i: usize = 0;
    proof {
        assert(views(out@) =~= Seq::<Seq<u8>>::empty());
        assert(s@.skip(0) =~= s@);
    }
    while i < s.len()
        invariant
            0 <= start <= i as int <= s@.len(),
            cur@ == s@.subrange(start, i as int),
            forall|k: int| start <= k < i as int ==> s@[k] != sep,
            spec_split(s@, sep) == views(out@) + spec_split(s@.skip(start), sep),
        decreases s@.len() - i,
    {
        if s[i] == sep {
            proof {
                let t = s@.skip(start);
                let j = i as int - start;
                assert forall|k: int| 0 <= k < j implies t[k] != sep by {
                    assert(t[k] == s@[start + k]);
                }
                assert(t[j] == s@[i as int]);
                lemma_split_step(t, sep, j);
                assert(t.subrange(0, j) =~= s@.subrange(start, i as int));
                assert(t.skip(j + 1) =~= s@.skip(i as int + 1));
                assert(views(out@.push(cur)) =~= views(out@) + seq![cur@]);
                assert((views(out@) + seq![cur@]) + spec_split(s@.skip(i as int + 1), sep)
                    =~= views(out@) + (seq![cur@] + spec_split(s@.skip(i as int + 1), sep)));
            }
            out.push(cur);
            cur = Vec::new();
            proof {
                start = i as int + 1;
                assert(cur@ =~= s@.subrange(start, i as int + 1));
            }
        } else {
            cur.push(s[i]);
            proof {
                assert(cur@ =~= s@.subrange(start, i as int + 1));
            }
        }
        i += 1;
    }
    proof {
        let t = s@.skip(start);
        let j = s@.len() - start;
        assert forall|k: int| 0 <= k < j implies t[k] != sep by {
            assert(t[k] == s@[start + k]);
        }
        lemma_split_step(t, sep, j);
        assert(cur@ =~= t);
        assert(views(out@.push(cur)) =~= views(out@) + seq![cur@]);
        assert(views(out@) + seq![t] =~= views(out@) + spec_split(t, sep));
    }
    out.push(cur);
    out
}

/// Byte-exact comparison of two slices.
pub fn bytes_eq(a: &[u8], b: &[u8]) -> (r: bool)
    ensures
        r == (a@ == b@),
{
    if a.len() != b.len() {
        return false;
    }
    let mut i: usize = 0;
    while i < a.len()
        invariant
            i <= a@.len(),
            a@.len() == b@.len(),
            forall|k: int| 0 <= k < i as int ==> a@[k] == b@[k],
        decreases a@.len() - i,
    {
        if a[i] != b[i] {
            return false;
        }
        i += 1;
    }
    proof {
        assert(a@ =~= b@);
    }
    true
}

/// Copies `s[from..to]` out as a fresh vector.
pub fn sub_bytes(s: &[u8], from: usize, to: usize) -> (r: Vec<u8>)
    requires
        from <= to <= s@.len(),
    ensures
        r@ == s@.subrange(from as int, to as int),
{
    let mut r: Vec<u8> = Vec::new();
    let mut i: usize = from;
    while i < to
        invariant
            from <= i <= to <= s@.len(),
            r@ == s@.subrange(from as int, i as int),
        decreases to - i,
    {
        r.push(s[i]);
        proof {
            assert(r@ =~= s@.subrange(from as int, i as int + 1));
        }
        i += 1;
    }
    r
}

/// Appends all of `src` to `dst`.
pub fn push_all(dst: &mut Vec<u8>, src: &[u8])
    ensures
        final(dst)@ == old(dst)@ + src@,
{
    let mut i: usize = 0;
    while i < src.len()
        invariant
            i <= src@.len(),
            dst@ == old(dst)@ + src@.subrange(0, i as int),
        decreases src@.len() - i,
    {
        dst.push(src[i]);
        proof {
            assert(old(dst)@ + src@.subrange(0, i as int + 1) =~= (old(dst)@ + src@.subrange(
                0,
                i as int,
            )).push(src@[i as int]));
        }
        i += 1;
    }
    proof {
        assert(src@.subrange(0, src@.len() as int) =~= src@);
    }
}

} // verus!
