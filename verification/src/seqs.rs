//! Generic sequence specifications shared by the library: first match,
//! selected indices and order-preserving filters.

use vstd::prelude::*;

verus! {

/// Index of the first element of `s` that satisfies `p`.
pub open spec fn first_index<T>(s: Seq<T>, p: spec_fn(T) -> bool) -> Option<int>
    decreases s.len(),
{
    if s.len() == 0 {
        None
    } else {
        match first_index(s.drop_last(), p) {
            Some(i) => Some(i),
            None => if p(s.last()) { Some(s.len() - 1) } else { None },
        }
    }
}

/// The first index is the least index that satisfies `p`, and it exists
/// exactly when some element satisfies `p`.
pub proof fn lemma_first_index<T>(s: Seq<T>, p: spec_fn(T) -> bool)
    ensures
        first_index(s, p) is Some <==> exists|i: int| 0 <= i < s.len() && p(s[i]),
        first_index(s, p) matches Some(i) ==> 0 <= i < s.len() && p(s[i])
            && forall|j: int| 0 <= j < i ==> !p(s[j]),
    decreases s.len(),
{
    if s.len() > 0 {
        lemma_first_index(s.drop_last(), p);
        assert forall|j: int| 0 <= j < s.len() - 1 implies s.drop_last()[j] == s[j] by {}
        if exists|i: int| 0 <= i < s.len() && p(s[i]) {
            let i = choose|i: int| 0 <= i < s.len() && p(s[i]);
            if i < s.len() - 1 {
                assert(s.drop_last()[i] == s[i]);
            }
        }
    }
}

/// A prefix extended by one element: the first index of the longer prefix.
pub proof fn lemma_first_index_step<T>(s: Seq<T>, i: int, p: spec_fn(T) -> bool)
    requires
        0 <= i < s.len(),
    ensures
        first_index(s.take(i + 1), p) == (match first_index(s.take(i), p) {
            Some(k) => Some(k),
            None => if p(s[i]) { Some(i) } else { None },
        }),
{
    assert(s.take(i + 1).drop_last() =~= s.take(i));
}

} // verus!

verus! {

/// When the first match of a prefix exists, it is the first match of the
/// whole sequence.
pub proof fn lemma_first_index_prefix<T>(s: Seq<T>, n: int, p: spec_fn(T) -> bool)
    requires
        0 <= n <= s.len(),
        first_index(s.take(n), p) is Some,
    ensures
        first_index(s, p) == first_index(s.take(n), p),
    decreases s.len() - n,
{
    if n < s.len() {
        lemma_first_index_step(s, n, p);
        lemma_first_index_prefix(s, n + 1, p);
    } else {
        assert(s.take(n) =~= s);
    }
}

} // verus!

verus! {

/// The positions `0 <= i < n` that satisfy `p`, in increasing order.
pub open spec fn select_indices(n: int, p: spec_fn(int) -> bool) -> Seq<usize>
    decreases n,
{
    if n <= 0 {
        Seq::empty()
    } else if p(n - 1) {
        select_indices(n - 1, p).push((n - 1) as usize)
    } else {
        select_indices(n - 1, p)
    }
}

/// The selected positions are exactly the positions below `n` that satisfy
/// `p`, listed once each in increasing order.
pub proof fn lemma_select_indices(n: int, p: spec_fn(int) -> bool)
    requires
        n <= usize::MAX + 1,
    ensures
        forall|k: int|
            0 <= k < select_indices(n, p).len() ==> 0 <= #[trigger] select_indices(n, p)[k] < n
                && p(select_indices(n, p)[k] as int),
        forall|i: int| 0 <= i < n && #[trigger] p(i) ==> select_indices(n, p).contains(i as usize),
        forall|k: int, l: int|
            0 <= k < l < select_indices(n, p).len() ==> select_indices(n, p)[k]
                < select_indices(n, p)[l],
        select_indices(n, p).len() <= if n < 0 { 0 } else { n },
    decreases n,
{
    if n > 0 {
        lemma_select_indices(n - 1, p);
        let r = select_indices(n - 1, p);
        if p(n - 1) {
            assert(select_indices(n, p) == r.push((n - 1) as usize));
            assert forall|i: int| 0 <= i < n && #[trigger] p(i) implies select_indices(n, p).contains(
                i as usize,
            ) by {
                if i < n - 1 {
                    let k = choose|k: int| 0 <= k < r.len() && r[k] == i as usize;
                    assert(select_indices(n, p)[k] == i as usize);
                } else {
                    assert(select_indices(n, p)[r.len() as int] == i as usize);
                }
            }
        }
    }
}

} // verus!

verus! {

/// The present values of a sequence of options, in order.
pub open spec fn filter_some<T>(s: Seq<Option<T>>) -> Seq<T>
    decreases s.len(),
{
    if s.len() == 0 {
        Seq::empty()
    } else {
        match s.last() {
            Some(x) => filter_some(s.drop_last()).push(x),
            None => filter_some(s.drop_last()),
        }
    }
}

/// One step of `filter_some` over a growing prefix.
pub proof fn lemma_filter_some_step<T>(s: Seq<Option<T>>, i: int)
    requires
        0 <= i < s.len(),
    ensures
        filter_some(s.take(i + 1)) == match s[i] {
            Some(x) => filter_some(s.take(i)).push(x),
            None => filter_some(s.take(i)),
        },
{
    assert(s.take(i + 1).drop_last() =~= s.take(i));
}

} // verus!

verus! {

/// When every position below `n` satisfies `p`, all of them are selected.
pub proof fn lemma_select_all(n: int, p: spec_fn(int) -> bool)
    requires
        0 <= n <= usize::MAX + 1,
        forall|i: int| 0 <= i < n ==> #[trigger] p(i),
    ensures
        select_indices(n, p) == Seq::new(n as nat, |i: int| i as usize),
    decreases n,
{
    if n > 0 {
        lemma_select_all(n - 1, p);
        assert(select_indices(n, p) =~= Seq::new(n as nat, |i: int| i as usize));
    } else {
        assert(select_indices(n, p) =~= Seq::new(n as nat, |i: int| i as usize));
    }
}

/// When no position below `n` satisfies `p`, none is selected.
pub proof fn lemma_select_none(n: int, p: spec_fn(int) -> bool)
    requires
        forall|i: int| 0 <= i < n ==> !#[trigger] p(i),
    ensures
        select_indices(n, p) == Seq::<usize>::empty(),
    decreases n,
{
    if n > 0 {
        lemma_select_none(n - 1, p);
    }
}

} // verus!

verus! {

/// Every selected position, for any predicate, is below the bound.
pub proof fn lemma_select_indices_bounded(n: int)
    requires
        n <= usize::MAX + 1,
    ensures
        forall|p: spec_fn(int) -> bool, k: int|
            0 <= k < select_indices(n, p).len() ==> 0 <= #[trigger] select_indices(n, p)[k] < n,
{
    assert forall|p: spec_fn(int) -> bool, k: int|
        0 <= k < select_indices(n, p).len() implies 0 <= #[trigger] select_indices(n, p)[k] < n by {
        lemma_select_indices(n, p);
    }
}

} // verus!
