//! Facts about `Seq::filter` that the store's proofs rely on: how filtering
//! interacts with appending, with removal of a single element, and with
//! pairwise relations such as sortedness and key uniqueness.

use vstd::prelude::*;

verus! {

/// Filtering after appending one element appends it to the filtered sequence
/// exactly when it satisfies the predicate.
pub proof fn lemma_filter_push<A>(s: Seq<A>, pred: spec_fn(A) -> bool, x: A)
    ensures
        s.push(x).filter(pred) == if pred(x) {
            s.filter(pred).push(x)
        } else {
            s.filter(pred)
        },
{
    reveal(Seq::filter);
    assert(s.push(x).drop_last() =~= s);
    assert(s.push(x).last() == x);
}

/// A filter that keeps every element returns the sequence unchanged.
pub broadcast proof fn lemma_filter_all<A>(s: Seq<A>, pred: spec_fn(A) -> bool)
    requires
        forall|i: int| 0 <= i < s.len() ==> pred(#[trigger] s[i]),
    ensures
        (#[trigger] s.filter(pred)) == s,
    decreases s.len(),
{
    reveal(Seq::filter);
    if s.len() > 0 {
        let dl = s.drop_last();
        assert forall|i: int| 0 <= i < dl.len() implies pred(#[trigger] dl[i]) by {
            assert(dl[i] == s[i]);
        }
        lemma_filter_all(dl, pred);
        assert(pred(s.last()));
        assert(dl.push(s.last()) =~= s);
    } else {
        assert(s.filter(pred) =~= s);
    }
}

/// Filtering out exactly one element is removal at its index.
pub proof fn lemma_filter_single_out<A>(s: Seq<A>, pred: spec_fn(A) -> bool, i: int)
    requires
        0 <= i < s.len(),
        !pred(s[i]),
        forall|j: int| 0 <= j < s.len() && j != i ==> pred(#[trigger] s[j]),
    ensures
        s.filter(pred) == s.remove(i),
    decreases s.len(),
{
    reveal(Seq::filter);
    let dl = s.drop_last();
    if i == s.len() - 1 {
        assert forall|j: int| 0 <= j < dl.len() implies pred(#[trigger] dl[j]) by {
            assert(dl[j] == s[j]);
        }
        lemma_filter_all(dl, pred);
        assert(s.remove(i) =~= dl);
    } else {
        assert forall|j: int| 0 <= j < dl.len() && j != i implies pred(#[trigger] dl[j]) by {
            assert(dl[j] == s[j]);
        }
        assert(dl[i] == s[i]);
        lemma_filter_single_out(dl, pred, i);
        assert(pred(s.last()));
        assert(dl.remove(i).push(s.last()) =~= s.remove(i));
    }
}

/// Every element of a filtered sequence stands somewhere in the original.
pub broadcast proof fn lemma_filter_sub<A>(s: Seq<A>, pred: spec_fn(A) -> bool, i: int)
    requires
        0 <= i < s.filter(pred).len(),
    ensures
        exists|w: int| 0 <= w < s.len() && s[w] == (#[trigger] s.filter(pred)[i]),
    decreases s.len(),
{
    reveal(Seq::filter);
    if s.len() > 0 {
        let dl = s.drop_last();
        let f = s.filter(pred);
        let fd = dl.filter(pred);
        if pred(s.last()) {
            if i < fd.len() {
                lemma_filter_sub(dl, pred, i);
                let w = choose|w: int| 0 <= w < dl.len() && dl[w] == fd[i];
                assert(s[w] == fd[i]);
                assert(f[i] == fd[i]);
            } else {
                assert(f[i] == s.last());
                assert(s[s.len() - 1] == f[i]);
            }
        } else {
            lemma_filter_sub(dl, pred, i);
            let w = choose|w: int| 0 <= w < dl.len() && dl[w] == fd[i];
            assert(s[w] == f[i]);
        }
    }
}

/// A relation that holds of every ordered pair of a sequence holds of every
/// ordered pair of any filtered subsequence.
pub proof fn lemma_filter_pairwise<A>(s: Seq<A>, pred: spec_fn(A) -> bool, rel: spec_fn(A, A) -> bool)
    requires
        forall|i: int, j: int| 0 <= i < j < s.len() ==> rel(#[trigger] s[i], #[trigger] s[j]),
    ensures
        forall|i: int, j: int|
            0 <= i < j < s.filter(pred).len() ==> rel(
                #[trigger] s.filter(pred)[i],
                #[trigger] s.filter(pred)[j],
            ),
    decreases s.len(),
{
    reveal(Seq::filter);
    if s.len() > 0 {
        let dl = s.drop_last();
        let f = s.filter(pred);
        let fd = dl.filter(pred);
        assert forall|i: int, j: int| 0 <= i < j < dl.len() implies rel(
            #[trigger] dl[i],
            #[trigger] dl[j],
        ) by {
            assert(dl[i] == s[i]);
            assert(dl[j] == s[j]);
        }
        lemma_filter_pairwise(dl, pred, rel);
        assert forall|i: int, j: int| 0 <= i < j < f.len() implies rel(
            #[trigger] f[i],
            #[trigger] f[j],
        ) by {
            if pred(s.last()) {
                assert(f == fd.push(s.last()));
                if j < fd.len() {
                    assert(f[i] == fd[i]);
                    assert(f[j] == fd[j]);
                } else {
                    assert(f[j] == s.last());
                    assert(f[i] == fd[i]);
                    assert(fd.contains(fd[i]));
                    dl.lemma_filter_contains_rev(pred, fd[i]);
                    let k = choose|k: int| 0 <= k < dl.len() && dl[k] == fd[i];
                    assert(s[k] == fd[i]);
                    assert(rel(s[k], s[s.len() - 1]));
                }
            } else {
                assert(f == fd);
            }
        }
    }
}

} // verus!
