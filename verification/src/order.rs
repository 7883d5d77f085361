//! The lexicographic order of character sequences (the order of `str` and
//! `String`), and sorting a list of distinct names by it.
use vstd::prelude::*;

verus! {

/// `a` comes strictly before `b`, comparing characters by code point and a
/// proper prefix before the longer sequence.
pub open spec fn seq_lt(a: Seq<char>, b: Seq<char>) -> bool
    decreases a.len(),
{
    if a.len() == 0 {
        b.len() > 0
    } else if b.len() == 0 {
        false
    } else if a[0] != b[0] {
        a[0] < b[0]
    } else {
        seq_lt(a.drop_first(), b.drop_first())
    }
}

/// No sequence comes before itself.
pub proof fn lemma_lt_irreflexive(a: Seq<char>)
    ensures
        !seq_lt(a, a),
    decreases a.len(),
{
    if a.len() > 0 {
        lemma_lt_irreflexive(a.drop_first());
    }
}

/// The order is transitive.
pub proof fn lemma_lt_transitive(a: Seq<char>, b: Seq<char>, c: Seq<char>)
    requires
        seq_lt(a, b),
        seq_lt(b, c),
    ensures
        seq_lt(a, c),
    decreases a.len(),
{
    if a.len() > 0 && b.len() > 0 && c.len() > 0 {
        if a[0] == b[0] && b[0] == c[0] {
            lemma_lt_transitive(a.drop_first(), b.drop_first(), c.drop_first());
        }
    }
}

/// Two different sequences are ordered one way or the other.
pub proof fn lemma_lt_total(a: Seq<char>, b: Seq<char>)
    ensures
        a != b ==> seq_lt(a, b) || seq_lt(b, a),
    decreases a.len(),
{
    if a.len() > 0 && b.len() > 0 && a[0] == b[0] {
        lemma_lt_total(a.drop_first(), b.drop_first());
        if a.drop_first() == b.drop_first() {
            assert(a =~= seq![a[0]] + a.drop_first());
            assert(b =~= seq![b[0]] + b.drop_first());
        }
    } else if a.len() == 0 && b.len() == 0 {
        assert(a =~= b);
    }
}

/// The order never holds both ways.
pub proof fn lemma_lt_asymmetric(a: Seq<char>, b: Seq<char>)
    ensures
        seq_lt(a, b) ==> !seq_lt(b, a),
{
    if seq_lt(a, b) && seq_lt(b, a) {
        lemma_lt_transitive(a, b, a);
        lemma_lt_irreflexive(a);
    }
}

/// Comparing from index `i` on, once the first `i` characters agree.
proof fn lemma_lt_skip(a: Seq<char>, b: Seq<char>, i: int)
    requires
        0 <= i <= a.len(),
        i <= b.len(),
        a.take(i) == b.take(i),
    ensures
        seq_lt(a, b) == seq_lt(a.skip(i), b.skip(i)),
    decreases i,
{
    if i > 0 {
        assert(a[0] == a.take(i)[0]);
        assert(b[0] == b.take(i)[0]);
        assert(a.drop_first().take(i - 1) =~= a.take(i).drop_first());
        assert(b.drop_first().take(i - 1) =~= b.take(i).drop_first());
        lemma_lt_skip(a.drop_first(), b.drop_first(), i - 1);
        assert(a.drop_first().skip(i - 1) =~= a.skip(i));
        assert(b.drop_first().skip(i - 1) =~= b.skip(i));
    } else {
        assert(a.skip(0) =~= a);
        assert(b.skip(0) =~= b);
    }
}

/// Whether `a` comes strictly before `b` (`str`'s `<`).
pub fn chars_lt(a: &[char], b: &[char]) -> (r: bool)
    ensures
        r == seq_lt(a@, b@),
{
    let mut i: usize = 0;
    while i < a.len() && i < b.len()
        invariant
            i <= a.len(),
            i <= b.len(),
            a@.take(i as int) == b@.take(i as int),
        decreases a.len() - i,
    {
        if a[i] != b[i] {
            proof {
                lemma_lt_skip(a@, b@, i as int);
                assert(a@.skip(i as int)[0] == a@[i as int]);
                assert(b@.skip(i as int)[0] == b@[i as int]);
            }
            return a[i] < b[i];
        }
        assert(a@.take(i + 1) =~= a@.take(i as int).push(a@[i as int]));
        assert(b@.take(i + 1) =~= b@.take(i as int).push(b@[i as int]));
        i = i + 1;
    }
    proof {
        lemma_lt_skip(a@, b@, i as int);
    }
    i == a.len() && i < b.len()
}

/// The names listed in the given order.
pub open spec fn names_in(names: Seq<Seq<char>>, order: Seq<usize>) -> Seq<Seq<char>> {
    order.map_values(|k: usize| names[k as int])
}

/// `order` holds the index `k`.
pub open spec fn lists(order: Seq<usize>, k: int) -> bool {
    exists|i: int| 0 <= i < order.len() && order[i] as int == k
}

/// `order` lists the indices of `names` (each once) in strictly increasing
/// order of name.
pub open spec fn is_sort_order(names: Seq<Seq<char>>, order: Seq<usize>) -> bool {
    &&& order.len() == names.len()
    &&& forall|i: int| 0 <= i < order.len() ==> order[i] < names.len()
    &&& forall|k: int| 0 <= k < names.len() ==> #[trigger] lists(order, k)
    &&& forall|i: int, j: int|
        0 <= i < j < order.len() ==> seq_lt(names[order[i] as int], names[order[j] as int])
}

/// Pairwise different names.
pub open spec fn distinct_names(names: Seq<Seq<char>>) -> bool {
    forall|i: int, j: int| 0 <= i < j < names.len() ==> names[i] != names[j]
}

/// The order that lists pairwise different names in increasing order.
pub fn sort_order(names: &Vec<Vec<char>>) -> (r: Vec<usize>)
    requires
        distinct_names(names.deep_view()),
    ensures
        is_sort_order(names.deep_view(), r@),
{
    let ghost nv = names.deep_view();
    let mut r: Vec<usize> = Vec::new();
    let mut k: usize = 0;
    while k < names.len()
        invariant
            k <= names.len(),
            nv == names.deep_view(),
            distinct_names(nv),
            r.len() == k,
            forall|i: int| 0 <= i < r.len() ==> r@[i] < k,
            forall|m: int| 0 <= m < k ==> #[trigger] lists(r@, m),
            forall|i: int, j: int| 0 <= i < j < r.len() ==> seq_lt(nv[r@[i] as int], nv[r@[j] as int]),
        decreases names.len() - k,
    {
        let key = names[k].as_slice();
        assert(key@ =~= nv[k as int]);
        let mut p: usize = 0;
        while p < r.len() && chars_lt(names[r[p]].as_slice(), key)
            invariant
                p <= r.len(),
                k < names.len(),
                nv == names.deep_view(),
                key@ == nv[k as int],
                forall|i: int| 0 <= i < r.len() ==> r@[i] < k,
                forall|i: int| 0 <= i < p ==> seq_lt(nv[r@[i] as int], nv[k as int]),
            decreases r.len() - p,
        {
            assert(names@[r@[p as int] as int]@ =~= nv[r@[p as int] as int]);
            p = p + 1;
        }
        proof {
            if p < r.len() {
                let q = r@[p as int] as int;
                assert(names@[q]@ =~= nv[q]);
                assert(nv[q] != nv[k as int]);
                lemma_lt_total(nv[q], nv[k as int]);
                assert(seq_lt(nv[k as int], nv[q]));
                assert forall|j: int| p < j < r.len() implies seq_lt(
                    nv[k as int],
                    nv[r@[j] as int],
                ) by {
                    lemma_lt_transitive(nv[k as int], nv[q], nv[r@[j] as int]);
                }
            }
        }
        let ghost old_r = r@;
        r.insert(p, k);
        proof {
            assert(r@ =~= old_r.insert(p as int, k));
            assert forall|m: int| 0 <= m < k + 1 implies #[trigger] lists(r@, m) by {
                if m == k {
                    assert(r@[p as int] == k);
                } else {
                    assert(lists(old_r, m));
                    let idx = choose|idx: int| 0 <= idx < old_r.len() && old_r[idx] as int == m;
                    if idx < p {
                        assert(r@[idx] == old_r[idx]);
                    } else {
                        assert(r@[idx + 1] == old_r[idx]);
                    }
                }
            }
            assert forall|i: int, j: int| 0 <= i < j < r.len() implies seq_lt(
                nv[r@[i] as int],
                nv[r@[j] as int],
            ) by {
                if j < p {
                } else if j == p {
                } else if i < p {
                    if p < old_r.len() {
                        lemma_lt_transitive(nv[r@[i] as int], nv[k as int], nv[r@[j] as int]);
                    }
                } else if i == p {
                } else {
                    assert(r@[i] == old_r[i - 1]);
                    assert(r@[j] == old_r[j - 1]);
                }
            }
        }
        k = k + 1;
    }
    r
}

} // verus!
