//! Whole-document textual substitution: every occurrence of one byte string
//! is replaced by another, leftmost first and without overlap, exactly as
//! `str::replace` does on UTF-8 text.  The widget replicator uses this to
//! rewrite the reference identity into the target identity.

use vstd::prelude::*;

verus! {

/// `p` occurs in `s` starting at index `i`.
pub open spec fn starts_with_at(s: Seq<u8>, p: Seq<u8>, i: int) -> bool {
    0 <= i && i + p.len() <= s.len() && s.subrange(i, i + p.len()) == p
}

/// `p` occurs somewhere in `s`.
pub open spec fn occurs_in(s: Seq<u8>, p: Seq<u8>) -> bool {
    exists|i: int| starts_with_at(s, p, i)
}

/// Leftmost-first, non-overlapping replacement of `from` by `to`.
/// For an empty pattern the input is returned unchanged.
pub open spec fn replace_spec(s: Seq<u8>, from: Seq<u8>, to: Seq<u8>) -> Seq<u8>
    decreases s.len(),
{
    if from.len() == 0 || s.len() == 0 {
        s
    } else if starts_with_at(s, from, 0) {
        to + replace_spec(s.skip(from.len() as int), from, to)
    } else {
        seq![s[0]] + replace_spec(s.skip(1), from, to)
    }
}

/// A string without any occurrence of the pattern is unchanged.
pub proof fn lemma_replace_no_occurrence(s: Seq<u8>, from: Seq<u8>, to: Seq<u8>)
    requires
        from.len() > 0,
        !occurs_in(s, from),
    ensures
        replace_spec(s, from, to) == s,
    decreases s.len(),
{
    if s.len() == 0 {
    } else {
        assert(!starts_with_at(s, from, 0));
        assert(!occurs_in(s.skip(1), from)) by {
            if occurs_in(s.skip(1), from) {
                let j = choose|j: int| starts_with_at(s.skip(1), from, j);
                assert(s.subrange(j + 1, j + 1 + from.len()) =~= s.skip(1).subrange(
                    j,
                    j + from.len(),
                ));
                assert(starts_with_at(s, from, j + 1));
            }
        }
        lemma_replace_no_occurrence(s.skip(1), from, to);
        assert(seq![s[0]] + s.skip(1) =~= s);
    }
}

/// A prefix in which no occurrence of the pattern starts passes through the
/// replacement unchanged.
pub proof fn lemma_replace_prefix(a: Seq<u8>, b: Seq<u8>, from: Seq<u8>, to: Seq<u8>)
    requires
        from.len() > 0,
        forall|j: int| 0 <= j < a.len() ==> !starts_with_at(a + b, from, j),
    ensures
        replace_spec(a + b, from, to) == a + replace_spec(b, from, to),
    decreases a.len(),
{
    if a.len() == 0 {
        assert(a + b =~= b);
        assert(a + replace_spec(b, from, to) =~= replace_spec(b, from, to));
    } else {
        let s = a + b;
        assert(!starts_with_at(s, from, 0));
        let a1 = a.skip(1);
        assert(s.skip(1) =~= a1 + b);
        assert(forall|j: int| 0 <= j < a1.len() ==> !#[trigger] starts_with_at(a1 + b, from, j))
            by {
            assert forall|j: int| 0 <= j < a1.len() implies !#[trigger] starts_with_at(
                a1 + b,
                from,
                j,
            ) by {
                if starts_with_at(a1 + b, from, j) {
                    assert((a1 + b).subrange(j, j + from.len()) =~= s.subrange(
                        j + 1,
                        j + 1 + from.len(),
                    ));
                    assert(starts_with_at(s, from, j + 1));
                }
            }
        }
        lemma_replace_prefix(a1, b, from, to);
        if s.len() == 0 {
        } else {
            assert(replace_spec(s, from, to) == seq![s[0]] + replace_spec(s.skip(1), from, to));
            assert(s[0] == a[0]);
            assert(seq![a[0]] + (a1 + replace_spec(b, from, to)) =~= a + replace_spec(
                b,
                from,
                to,
            ));
        }
    }
}

/// An occurrence of the pattern at the head is replaced.
pub proof fn lemma_replace_at_head(s: Seq<u8>, from: Seq<u8>, to: Seq<u8>)
    requires
        from.len() > 0,
        starts_with_at(s, from, 0),
    ensures
        replace_spec(s, from, to) == to + replace_spec(s.skip(from.len() as int), from, to),
{
}

/// Whether `p@` occurs in `s@` starting at `i`.
fn matches_at(s: &[u8], p: &[u8], i: usize) -> (r: bool)
    requires
        i <= s@.len(),
    ensures
        r == starts_with_at(s@, p@, i as int),
{
    let n = s.len();
    let m = p.len();
    if m > n - i {
        return false;
    }
    let mut k: usize = 0;
    while k < m
        invariant
            0 <= k <= m,
            i + m <= n == s@.len(),
            m == p@.len(),
            forall|q: int| 0 <= q < k ==> s@[i + q] == p@[q],
        decreases m - k,
    {
        if s[i + k] != p[k] {
            proof {
                assert(s@.subrange(i as int, i + m) != p@) by {
                    assert(s@.subrange(i as int, i + m)[k as int] == s@[i + k]);
                }
            }
            return false;
        }
        k = k + 1;
    }
    proof {
        assert(s@.subrange(i as int, i + m) =~= p@);
    }
    true
}

/// Replaces every occurrence of `from` in `s` by `to`, leftmost first.  An
/// empty pattern leaves the input unchanged.
#[verifier::loop_isolation(false)]
pub fn replace_bytes(s: &[u8], from: &[u8], to: &[u8]) -> (r: Vec<u8>)
    ensures
        r@ == replace_spec(s@, from@, to@),
{
    if from.len() == 0 {
        let r = vstd::slice::slice_to_vec(s);
        return r;
    }
    let mut out: Vec<u8> = Vec::new();
    let mut i: usize = 0;
    proof {
        assert(s@.skip(0) =~= s@);
        assert(out@ + replace_spec(s@, from@, to@) =~= replace_spec(s@, from@, to@));
    }
    while i < s.len()
        invariant
            0 <= i <= s@.len(),
            replace_spec(s@, from@, to@) == out@ + replace_spec(s@.skip(i as int), from@, to@),
        decreases s@.len() - i,
    {
        let ghost rest = s@.skip(i as int);
        if matches_at(s, from, i) {
            proof {
                assert(rest.subrange(0, from@.len() as int) =~= s@.subrange(
                    i as int,
                    i + from@.len(),
                ));
                assert(starts_with_at(rest, from@, 0));
                assert(rest.skip(from@.len() as int) =~= s@.skip(i + from@.len()));
            }
            out.extend_from_slice(to);
            i = i + from.len();
        } else {
            proof {
                assert(!starts_with_at(rest, from@, 0)) by {
                    if starts_with_at(rest, from@, 0) {
                        assert(s@.subrange(i as int, i + from@.len()) =~= rest.subrange(
                            0,
                            from@.len() as int,
                        ));
                    }
                }
                assert(rest.skip(1) =~= s@.skip(i + 1));
                assert(rest[0] == s@[i as int]);
            }
            out.push(s[i]);
            i = i + 1;
        }
    }
    proof {
        assert(s@.skip(i as int) =~= Seq::<u8>::empty());
        assert(replace_spec(Seq::<u8>::empty(), from@, to@) == Seq::<u8>::empty());
        assert(out@ + Seq::<u8>::empty() =~= out@);
    }
    out
}

} // verus!
