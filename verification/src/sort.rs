//! Stable ordering of listed items by a (group, coordinates) key, as the
//! workspace listings order them.

use vstd::prelude::*;

verus! {

/// Ordering key: group id characters (by code point) then coordinates.
pub struct SortKey {
    pub group: Seq<u32>,
    pub coords: Seq<u32>,
}

/// A key as the caller holds it.
pub struct ExecKey {
    pub group: Vec<u32>,
    pub coords: Vec<u32>,
}

pub open spec fn key_view(k: ExecKey) -> SortKey {
    SortKey { group: k.group@, coords: k.coords@ }
}

/// Lexicographic strict order on number sequences (a proper prefix comes
/// first), as `Ord` orders slices.
pub open spec fn lex_lt(a: Seq<u32>, b: Seq<u32>) -> bool
    decreases a.len(),
{
    if a.len() == 0 {
        b.len() > 0
    } else if b.len() == 0 {
        false
    } else if a[0] < b[0] {
        true
    } else if a[0] > b[0] {
        false
    } else {
        lex_lt(a.drop_first(), b.drop_first())
    }
}

/// `a` sorts no later than `b`: its group is smaller, or the groups are
/// equal and its coordinates are not larger.
pub open spec fn key_le(a: SortKey, b: SortKey) -> bool {
    lex_lt(a.group, b.group) || (a.group == b.group && !lex_lt(b.coords, a.coords))
}

/// Where a stable insertion puts `x` into `s`: after the last element that
/// sorts no later than it, scanning from the end.
pub open spec fn insertion_pos(s: Seq<usize>, x: usize, key: spec_fn(usize) -> SortKey) -> int
    decreases s.len(),
{
    if s.len() == 0 {
        0
    } else if key_le(key(s.last()), key(x)) {
        s.len() as int
    } else {
        insertion_pos(s.drop_last(), x, key)
    }
}

/// The positions `0..n` in stable sorted order of their keys.
pub open spec fn sort_indices(n: int, key: spec_fn(usize) -> SortKey) -> Seq<usize>
    decreases n,
{
    if n <= 0 {
        Seq::empty()
    } else {
        let s = sort_indices(n - 1, key);
        s.insert(insertion_pos(s, (n - 1) as usize, key), (n - 1) as usize)
    }
}

pub proof fn lemma_insertion_pos_bounds(s: Seq<usize>, x: usize, key: spec_fn(usize) -> SortKey)
    ensures
        0 <= insertion_pos(s, x, key) <= s.len(),
    decreases s.len(),
{
    if s.len() > 0 {
        lemma_insertion_pos_bounds(s.drop_last(), x, key);
    }
}

/// Elements of the sorted positions are below `n`, and there are `n`.
pub proof fn lemma_sort_indices_len(n: int, key: spec_fn(usize) -> SortKey)
    requires
        0 <= n <= usize::MAX + 1,
    ensures
        sort_indices(n, key).len() == n,
        forall|k: int| 0 <= k < n ==> #[trigger] sort_indices(n, key)[k] < n,
    decreases n,
{
    if n > 0 {
        lemma_sort_indices_len(n - 1, key);
        let s = sort_indices(n - 1, key);
        lemma_insertion_pos_bounds(s, (n - 1) as usize, key);
        let p = insertion_pos(s, (n - 1) as usize, key);
        assert forall|k: int| 0 <= k < n implies #[trigger] sort_indices(n, key)[k] < n by {
            if k < p {
                assert(sort_indices(n, key)[k] == s[k]);
            } else if k > p {
                assert(sort_indices(n, key)[k] == s[k - 1]);
            }
        }
    }
}

fn lex_lt_exec(a: &Vec<u32>, b: &Vec<u32>) -> (r: bool)
    ensures
        r == lex_lt(a@, b@),
{
    let mut i: usize = 0;
    assert(a@.skip(0) =~= a@);
    assert(b@.skip(0) =~= b@);
    while i < a.len() && i < b.len()
        invariant
            i <= a.len(),
            i <= b.len(),
            lex_lt(a@, b@) == lex_lt(a@.skip(i as int), b@.skip(i as int)),
        decreases a.len() - i,
    {
        if a[i] < b[i] {
            return true;
        }
        if a[i] > b[i] {
            return false;
        }
        assert(a@.skip(i as int).drop_first() =~= a@.skip(i + 1));
        assert(b@.skip(i as int).drop_first() =~= b@.skip(i + 1));
        i = i + 1;
    }
    i == a.len() && i < b.len()
}

fn seq_eq_exec(a: &Vec<u32>, b: &Vec<u32>) -> (r: bool)
    ensures
        r == (a@ == b@),
{
    if a.len() != b.len() {
        return false;
    }
    let mut i: usize = 0;
    while i < a.len()
        invariant
            a.len() == b.len(),
            i <= a.len(),
            forall|k: int| 0 <= k < i ==> a@[k] == b@[k],
        decreases a.len() - i,
    {
        if a[i] != b[i] {
            return false;
        }
        i = i + 1;
    }
    assert(a@ =~= b@);
    true
}

fn key_le_exec(a: &ExecKey, b: &ExecKey) -> (r: bool)
    ensures
        r == key_le(key_view(*a), key_view(*b)),
{
    if lex_lt_exec(&a.group, &b.group) {
        return true;
    }
    seq_eq_exec(&a.group, &b.group) && !lex_lt_exec(&b.coords, &a.coords)
}

/// Stable sort of the positions of `keys` by key.
pub fn stable_sort_indices(keys: &Vec<ExecKey>) -> (r: Vec<usize>)
    ensures
        r@ == sort_indices(keys.len() as int, |i: usize| key_view(keys@[i as int])),
        r@.len() == keys.len(),
        forall|k: int| 0 <= k < r@.len() ==> #[trigger] r@[k] < keys.len(),
{
    let ghost key = |i: usize| key_view(keys@[i as int]);
    let mut r: Vec<usize> = Vec::new();
    let mut i: usize = 0;
    while i < keys.len()
        invariant
            i <= keys.len(),
            key == (|i: usize| key_view(keys@[i as int])),
            r@ == sort_indices(i as int, key),
            r@.len() == i,
            forall|k: int| 0 <= k < r@.len() ==> #[trigger] r@[k] < i,
        decreases keys.len() - i,
    {
        let mut j: usize = r.len();
        assert(r@.take(r.len() as int) =~= r@);
        loop
            invariant
                j <= r.len(),
                i < keys.len(),
                key == (|i: usize| key_view(keys@[i as int])),
                forall|k: int| 0 <= k < r@.len() ==> #[trigger] r@[k] < i,
                insertion_pos(r@, i, key) == insertion_pos(r@.take(j as int), i, key),
            ensures
                insertion_pos(r@, i, key) == j,
            decreases j,
        {
            if j == 0 {
                assert(r@.take(0) =~= Seq::<usize>::empty());
                break;
            }
            let prev = r[j - 1];
            let ghost t = r@.take(j as int);
            assert(t.drop_last() =~= r@.take(j - 1));
            assert(t.last() == prev);
            assert(t.len() == j);
            let le = key_le_exec(&keys[prev], &keys[i]);
            assert(key(prev) == key_view(keys@[prev as int]));
            assert(key(i) == key_view(keys@[i as int]));
            assert(le == key_le(key(t.last()), key(i)));
            if le {
                break;
            }
            j = j - 1;
        }
        proof {
            assert(r@.take(0) =~= Seq::<usize>::empty());
            lemma_insertion_pos_bounds(r@, i, key);
        }
        r.insert(j, i);
        i = i + 1;
        assert forall|k: int| 0 <= k < r@.len() implies #[trigger] r@[k] < i by {}
    }
    r
}

} // verus!

verus! {

pub proof fn lemma_lex_irreflexive(a: Seq<u32>)
    ensures
        !lex_lt(a, a),
    decreases a.len(),
{
    if a.len() > 0 {
        lemma_lex_irreflexive(a.drop_first());
    }
}

pub proof fn lemma_lex_asymmetric(a: Seq<u32>, b: Seq<u32>)
    requires
        lex_lt(a, b),
    ensures
        !lex_lt(b, a),
    decreases a.len(),
{
    if a.len() > 0 && b.len() > 0 && a[0] == b[0] {
        lemma_lex_asymmetric(a.drop_first(), b.drop_first());
    }
}

pub proof fn lemma_lex_transitive(a: Seq<u32>, b: Seq<u32>, c: Seq<u32>)
    requires
        lex_lt(a, b),
        lex_lt(b, c),
    ensures
        lex_lt(a, c),
    decreases a.len(),
{
    if a.len() > 0 && b.len() > 0 && c.len() > 0 && a[0] == b[0] && b[0] == c[0] {
        lemma_lex_transitive(a.drop_first(), b.drop_first(), c.drop_first());
    }
}

pub proof fn lemma_lex_total(a: Seq<u32>, b: Seq<u32>)
    requires
        a != b,
    ensures
        lex_lt(a, b) || lex_lt(b, a),
    decreases a.len(),
{
    if a.len() > 0 && b.len() > 0 && a[0] == b[0] {
        if a.drop_first() == b.drop_first() {
            assert(a =~= seq![a[0]] + a.drop_first());
            assert(b =~= seq![b[0]] + b.drop_first());
        }
        lemma_lex_total(a.drop_first(), b.drop_first());
    } else if a.len() == 0 && b.len() == 0 {
        assert(a =~= b);
    }
}

/// `key_le` is a total preorder: reflexive, total and transitive.
pub proof fn lemma_key_le_total_preorder(a: SortKey, b: SortKey, c: SortKey)
    ensures
        key_le(a, a),
        key_le(a, b) || key_le(b, a),
        key_le(a, b) && key_le(b, c) ==> key_le(a, c),
{
    lemma_lex_irreflexive(a.coords);
    if a.group != b.group {
        lemma_lex_total(a.group, b.group);
    } else if a.coords != b.coords {
        lemma_lex_total(a.coords, b.coords);
        if lex_lt(a.coords, b.coords) {
            lemma_lex_asymmetric(a.coords, b.coords);
        } else {
            lemma_lex_asymmetric(b.coords, a.coords);
        }
    } else {
        lemma_lex_irreflexive(a.group);
    }
    if key_le(a, b) && key_le(b, c) {
        if lex_lt(a.group, b.group) && lex_lt(b.group, c.group) {
            lemma_lex_transitive(a.group, b.group, c.group);
        }
        if a.group == b.group && b.group == c.group {
            if lex_lt(c.coords, a.coords) {
                if b.coords != a.coords {
                    lemma_lex_total(b.coords, a.coords);
                    if lex_lt(a.coords, b.coords) {
                        lemma_lex_transitive(c.coords, a.coords, b.coords);
                    }
                } else {
                }
            }
        }
    }
}

/// The position a stable insertion picks: everything from it onwards sorts
/// strictly after `x`, and the element just before it sorts no later.
pub proof fn lemma_insertion_pos(s: Seq<usize>, x: usize, key: spec_fn(usize) -> SortKey)
    ensures
        forall|k: int|
            insertion_pos(s, x, key) <= k < s.len() ==> !key_le(#[trigger] key(s[k]), key(x)),
        insertion_pos(s, x, key) > 0 ==> key_le(key(s[insertion_pos(s, x, key) - 1]), key(x)),
    decreases s.len(),
{
    lemma_insertion_pos_bounds(s, x, key);
    if s.len() > 0 && !key_le(key(s.last()), key(x)) {
        let t = s.drop_last();
        lemma_insertion_pos(t, x, key);
        lemma_insertion_pos_bounds(t, x, key);
        assert(insertion_pos(s, x, key) == insertion_pos(t, x, key));
        assert forall|k: int| insertion_pos(s, x, key) <= k < s.len() implies !key_le(
            #[trigger] key(s[k]),
            key(x),
        ) by {
            if k < s.len() - 1 {
                assert(s[k] == t[k]);
            }
        }
        if insertion_pos(s, x, key) > 0 {
            assert(s[insertion_pos(s, x, key) - 1] == t[insertion_pos(t, x, key) - 1]);
        }
    }
}

/// Positions `0..n` listed in an order whose keys never decrease.
pub open spec fn sorted_by_key(s: Seq<usize>, key: spec_fn(usize) -> SortKey) -> bool {
    forall|k: int, l: int| 0 <= k < l < s.len() ==> key_le(#[trigger] key(s[k]), #[trigger] key(s[l]))
}

/// The stable sort lists every position below `n` exactly once, in an order
/// whose keys never decrease.
pub proof fn lemma_sort_indices_sorted_permutation(n: int, key: spec_fn(usize) -> SortKey)
    requires
        0 <= n <= usize::MAX + 1,
    ensures
        sort_indices(n, key).len() == n,
        sort_indices(n, key).no_duplicates(),
        forall|u: usize| u < n ==> #[trigger] sort_indices(n, key).contains(u),
        sorted_by_key(sort_indices(n, key), key),
    decreases n,
{
    lemma_sort_indices_len(n, key);
    if n > 0 {
        lemma_sort_indices_sorted_permutation(n - 1, key);
        lemma_sort_indices_len(n - 1, key);
        let s = sort_indices(n - 1, key);
        let x = (n - 1) as usize;
        let p = insertion_pos(s, x, key);
        let r = sort_indices(n, key);
        lemma_insertion_pos_bounds(s, x, key);
        lemma_insertion_pos(s, x, key);
        assert(r == s.insert(p, x));
        assert forall|k: int| 0 <= k < r.len() implies r[k] == (if k < p {
            s[k]
        } else if k == p {
            x
        } else {
            s[k - 1]
        }) by {}
        // No duplicates: x is new, the rest come from s.
        assert forall|k: int, l: int| 0 <= k < r.len() && 0 <= l < r.len() && k != l implies r[k]
            != r[l] by {
            if k != p && l != p {
                let kk = if k < p { k } else { k - 1 };
                let ll = if l < p { l } else { l - 1 };
                assert(s[kk] != s[ll]);
            } else if k == p {
                let ll = if l < p { l } else { l - 1 };
                assert(s[ll] < n - 1);
            } else {
                let kk = if k < p { k } else { k - 1 };
                assert(s[kk] < n - 1);
            }
        }
        assert forall|u: usize| u < n implies #[trigger] r.contains(u) by {
            if u == n - 1 {
                assert(r[p] == x);
            } else {
                assert(s.contains(u));
                let k = choose|k: int| 0 <= k < s.len() && s[k] == u;
                if k < p {
                    assert(r[k] == u);
                } else {
                    assert(r[k + 1] == u);
                }
            }
        }
        assert forall|k: int, l: int| 0 <= k < l < r.len() implies key_le(
            #[trigger] key(r[k]),
            #[trigger] key(r[l]),
        ) by {
            if l < p {
                assert(key_le(key(s[k]), key(s[l])));
            } else if k > p {
                assert(key_le(key(s[k - 1]), key(s[l - 1])));
            } else if k == p {
                // r[l] = s[l-1] with l - 1 >= p: it sorts strictly after x.
                assert(!key_le(key(s[l - 1]), key(x)));
                lemma_key_le_total_preorder(key(x), key(s[l - 1]), key(x));
            } else if l == p {
                // r[k] = s[k] with k < p: no later than s[p-1], which is no later than x.
                if k < p - 1 {
                    assert(key_le(key(s[k]), key(s[p - 1])));
                    lemma_key_le_total_preorder(key(s[k]), key(s[p - 1]), key(x));
                } else {
                }
            } else {
                // k < p < l
                assert(key_le(key(s[k]), key(s[l - 1])));
            }
        }
    }
}

} // verus!

verus! {

/// The stable sort depends only on the keys of the positions it sorts.
pub proof fn lemma_sort_indices_same_keys(
    n: int,
    k1: spec_fn(usize) -> SortKey,
    k2: spec_fn(usize) -> SortKey,
    m: int,
)
    requires
        n <= m <= usize::MAX + 1,
        forall|i: usize| i < m ==> #[trigger] k1(i) == k2(i),
    ensures
        sort_indices(n, k1) == sort_indices(n, k2),
    decreases n,
{
    if n > 0 {
        lemma_sort_indices_same_keys(n - 1, k1, k2, m);
        lemma_sort_indices_len(n - 1, k1);
        lemma_insertion_pos_same_keys(sort_indices(n - 1, k1), (n - 1) as usize, k1, k2, m);
    }
}

proof fn lemma_insertion_pos_same_keys(
    s: Seq<usize>,
    x: usize,
    k1: spec_fn(usize) -> SortKey,
    k2: spec_fn(usize) -> SortKey,
    m: int,
)
    requires
        x < m,
        forall|j: int| 0 <= j < s.len() ==> s[j] < m,
        forall|i: usize| i < m ==> #[trigger] k1(i) == k2(i),
    ensures
        insertion_pos(s, x, k1) == insertion_pos(s, x, k2),
    decreases s.len(),
{
    if s.len() > 0 {
        lemma_insertion_pos_same_keys(s.drop_last(), x, k1, k2, m);
    }
}

} // verus!

verus! {

/// The sort is stable: when a later-listed position does not sort strictly
/// after an earlier-listed one, the two keep the order they had.
pub proof fn lemma_sort_indices_stable(n: int, key: spec_fn(usize) -> SortKey)
    requires
        0 <= n <= usize::MAX + 1,
    ensures
        forall|k: int, l: int|
            0 <= k < l < sort_indices(n, key).len() && key_le(
                #[trigger] key(sort_indices(n, key)[l]),
                #[trigger] key(sort_indices(n, key)[k]),
            ) ==> sort_indices(n, key)[k] < sort_indices(n, key)[l],
    decreases n,
{
    lemma_sort_indices_len(n, key);
    if n > 0 {
        lemma_sort_indices_stable(n - 1, key);
        lemma_sort_indices_len(n - 1, key);
        let s = sort_indices(n - 1, key);
        let x = (n - 1) as usize;
        let p = insertion_pos(s, x, key);
        let r = sort_indices(n, key);
        lemma_insertion_pos_bounds(s, x, key);
        lemma_insertion_pos(s, x, key);
        assert(r == s.insert(p, x));
        assert forall|k: int, l: int|
            0 <= k < l < r.len() && key_le(#[trigger] key(r[l]), #[trigger] key(r[k])) implies r[k]
            < r[l] by {
            if l < p {
                assert(r[k] == s[k] && r[l] == s[l]);
            } else if l == p {
                assert(r[k] == s[k]);
            } else if k == p {
                assert(r[l] == s[l - 1]);
            } else if k < p {
                assert(r[k] == s[k] && r[l] == s[l - 1]);
            } else {
                assert(r[k] == s[k - 1] && r[l] == s[l - 1]);
            }
        }
    }
}

} // verus!
