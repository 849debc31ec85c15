//! Facts about sequences that the collection-building loops rely on.

use vstd::prelude::*;

verus! {

/// An element is in `s.push(x)` exactly when it is `x` or already in `s`.
pub proof fn lemma_push_contains<T>(s: Seq<T>, x: T)
    ensures
        forall|k: T| #[trigger] s.push(x).contains(k) <==> (s.contains(k) || k == x),
{
    assert forall|k: T| #[trigger] s.push(x).contains(k) <==> (s.contains(k) || k == x) by {
        if s.push(x).contains(k) && k != x {
            let j = choose|j: int| 0 <= j < s.len() + 1 && s.push(x)[j] == k;
            assert(j < s.len());
            assert(s[j] == k);
        }
        if k == x {
            assert(s.push(x)[s.len() as int] == k);
        }
        if s.contains(k) {
            let j = choose|j: int| 0 <= j < s.len() && s[j] == k;
            assert(s.push(x)[j] == k);
        }
    }
}

/// Pushing an element that is not yet present keeps a sequence free of
/// duplicates.
pub proof fn lemma_push_no_duplicates<T>(s: Seq<T>, x: T)
    requires
        s.no_duplicates(),
        !s.contains(x),
    ensures
        s.push(x).no_duplicates(),
{
    let t = s.push(x);
    assert forall|i: int, j: int| 0 <= i < t.len() && 0 <= j < t.len() && i != j implies t[i]
        != t[j] by {
        if i < s.len() && j < s.len() {
            assert(t[i] == s[i] && t[j] == s[j]);
        } else if i < s.len() {
            assert(t[i] == s[i]);
            assert(s.contains(t[i]));
        } else {
            assert(t[j] == s[j]);
            assert(s.contains(t[j]));
        }
    }
}

/// The element at `i` of a sequence without duplicates does not occur in
/// its first `i` elements, and those `i + 1` elements are the first `i`
/// followed by it.
pub proof fn lemma_take_next<T>(s: Seq<T>, i: int)
    requires
        s.no_duplicates(),
        0 <= i < s.len(),
    ensures
        !s.take(i).contains(s[i]),
        s.take(i + 1) == s.take(i).push(s[i]),
{
    if s.take(i).contains(s[i]) {
        let j = choose|j: int| 0 <= j < i && s.take(i)[j] == s[i];
        assert(s[j] == s[i]);
    }
    assert(s.take(i + 1) =~= s.take(i).push(s[i]));
}


/// A filter that keeps no element gives the empty sequence.
pub proof fn lemma_filter_none<T>(s: Seq<T>, pred: spec_fn(T) -> bool)
    requires
        forall|i: int| 0 <= i < s.len() ==> !pred(s[i]),
    ensures
        s.filter(pred) == Seq::<T>::empty(),
    decreases s.len(),
{
    reveal(Seq::filter);
    if s.len() > 0 {
        lemma_filter_none(s.drop_last(), pred);
        assert(!pred(s[s.len() - 1]));
    }
}

/// Filtering after a push keeps the pushed element exactly when the
/// predicate holds of it.
pub proof fn lemma_filter_push<T>(s: Seq<T>, x: T, pred: spec_fn(T) -> bool)
    ensures
        s.push(x).filter(pred) == (if pred(x) {
            s.filter(pred).push(x)
        } else {
            s.filter(pred)
        }),
{
    reveal(Seq::filter);
    assert(s.push(x).drop_last() =~= s);
}

} // verus!
