//! Which coupling contributions land on which entry of an `N x N` matrix.
//!
//! Each coupling adds one value to one entry (`A[i][j]`, `B[i][j]`, or
//! `C[j][j]`); an entry that several couplings share receives all of their
//! values. Grouping the values by entry first leaves the caller one sum per
//! entry, over the values in the order of the coupling list.
use vstd::prelude::*;
use vstd::seq_lib::{to_multiset_build};
use crate::matrix::copy_row;

verus! {

/// The values of the entries whose target is `target`, in list order.
pub open spec fn received<T>(entries: Seq<((usize, usize), T)>, target: (usize, usize)) -> Seq<T>
    decreases entries.len(),
{
    if entries.len() == 0 {
        Seq::empty()
    } else {
        let rest = received(entries.drop_last(), target);
        if entries.last().0 == target {
            rest.push(entries.last().1)
        } else {
            rest
        }
    }
}

/// How often an entry receives a value is how often the pair of that entry
/// and that value occurs in the list.
proof fn lemma_received_count<T>(entries: Seq<((usize, usize), T)>, target: (usize, usize), v: T)
    ensures
        received(entries, target).to_multiset().count(v) == entries.to_multiset().count((target, v)),
    decreases entries.len(),
{
    broadcast use vstd::seq_lib::group_to_multiset_ensures;
    broadcast use vstd::multiset::group_multiset_axioms;

    if entries.len() == 0 {
        assert(received(entries, target) =~= Seq::<T>::empty());
        assert(entries =~= Seq::<((usize, usize), T)>::empty());
        Seq::<T>::empty().to_multiset_ensures();
        entries.to_multiset_ensures();
        vstd::multiset::lemma_multiset_empty_len(Seq::<T>::empty().to_multiset());
        vstd::multiset::lemma_multiset_empty_len(entries.to_multiset());
    } else {
        let rest = entries.drop_last();
        let last = entries.last();
        assert(entries =~= rest.push(last));
        lemma_received_count(rest, target, v);
        to_multiset_build(rest, last);
        if last.0 == target {
            to_multiset_build(received(rest, target), last.1);
        }
    }
}

/// The values that an entry receives, taken as a multiset, do not depend on
/// the order of the list: two lists that are permutations of each other
/// give every entry the same values, each as often.
pub proof fn lemma_received_order_free<T>(
    entries: Seq<((usize, usize), T)>,
    permuted: Seq<((usize, usize), T)>,
    target: (usize, usize),
)
    requires
        entries.to_multiset() == permuted.to_multiset(),
    ensures
        received(entries, target).to_multiset() == received(permuted, target).to_multiset(),
{
    assert forall|v: T| received(entries, target).to_multiset().count(v) == received(
        permuted,
        target,
    ).to_multiset().count(v) by {
        lemma_received_count(entries, target, v);
        lemma_received_count(permuted, target, v);
    }
    assert(received(entries, target).to_multiset() =~= received(permuted, target).to_multiset());
}

/// Facts about the flat index `i * n + j` of the entry `(i, j)`.
proof fn lemma_flat_index(n: int, i: int, j: int, i2: int, j2: int)
    requires
        0 <= i < n,
        0 <= j < n,
        0 <= i2 < n,
        0 <= j2 < n,
    ensures
        0 <= i * n + j < n * n,
        i * n + j == i2 * n + j2 ==> i == i2 && j == j2,
{
    assert(0 <= i * n + j < n * n) by (nonlinear_arith)
        requires
            0 <= i < n,
            0 <= j < n,
    ;
    if i * n + j == i2 * n + j2 {
        if i < i2 {
            assert(i * n + j < i2 * n + j2) by (nonlinear_arith)
                requires
                    i < i2,
                    0 <= j < n,
                    0 <= j2,
            ;
        } else if i2 < i {
            assert(i2 * n + j2 < i * n + j) by (nonlinear_arith)
                requires
                    i2 < i,
                    0 <= j2 < n,
                    0 <= j,
            ;
        }
    }
}

/// For an `n x n` matrix, the values of `entries` grouped by their target
/// entry: `out[i][j]` holds, in list order, the values whose target is
/// `(i, j)`.
pub fn collect_contributions<T: Copy>(entries: &Vec<((usize, usize), T)>, n: usize) -> (out: Vec<
    Vec<Vec<T>>,
>)
    requires
        n * n <= usize::MAX,
        forall|k: int|
            0 <= k < entries@.len() ==> (#[trigger] entries@[k]).0.0 < n && entries@[k].0.1 < n,
    ensures
        out@.len() == n,
        forall|i: int| 0 <= i < n ==> (#[trigger] out@[i])@.len() == n,
        forall|i: int, j: int|
            0 <= i < n && 0 <= j < n ==> (#[trigger] out@[i]@[j])@ == received(
                entries@,
                (i as usize, j as usize),
            ),
{
    let nn = n * n;
    let mut flat: Vec<Vec<T>> = Vec::new();
    let mut f: usize = 0;
    while f < nn
        invariant
            f <= nn,
            flat@.len() == f,
            forall|g: int| 0 <= g < f ==> (#[trigger] flat@[g])@ == Seq::<T>::empty(),
        decreases nn - f,
    {
        flat.push(Vec::new());
        f = f + 1;
    }
    proof {
        assert forall|i: int, j: int| 0 <= i < n && 0 <= j < n implies (#[trigger] flat@[i * n
            + j])@ == received(entries@.take(0), (i as usize, j as usize)) by {
            lemma_flat_index(n as int, i, j, i, j);
            assert(entries@.take(0).len() == 0);
        }
    }
    let mut k: usize = 0;
    while k < entries.len()
        invariant
            nn == n * n,
            n * n <= usize::MAX,
            k <= entries@.len(),
            flat@.len() == nn,
            forall|k: int|
                0 <= k < entries@.len() ==> (#[trigger] entries@[k]).0.0 < n && entries@[k].0.1 < n,
            forall|i: int, j: int|
                0 <= i < n && 0 <= j < n ==> (#[trigger] flat@[i * n + j])@ == received(
                    entries@.take(k as int),
                    (i as usize, j as usize),
                ),
        decreases entries@.len() - k,
    {
        let (target, v) = entries[k];
        let (i, j) = target;
        proof {
            lemma_flat_index(n as int, i as int, j as int, i as int, j as int);
        }
        let idx = i * n + j;
        let mut group = copy_row(&flat[idx]);
        group.push(v);
        let ghost before = flat@;
        flat.set(idx, group);
        proof {
            assert(entries@.take(k + 1).drop_last() =~= entries@.take(k as int));
            assert forall|a: int, b: int| 0 <= a < n && 0 <= b < n implies (#[trigger] flat@[a * n
                + b])@ == received(entries@.take(k + 1), (a as usize, b as usize)) by {
                lemma_flat_index(n as int, a, b, i as int, j as int);
                if a == i && b == j {
                } else {
                    assert(flat@[a * n + b] == before[a * n + b]);
                }
            }
        }
        k = k + 1;
    }
    assert(entries@.take(entries@.len() as int) =~= entries@);
    let mut out: Vec<Vec<Vec<T>>> = Vec::new();
    let mut i: usize = 0;
    while i < n
        invariant
            nn == n * n,
            i <= n,
            flat@.len() == nn,
            out@.len() == i,
            forall|i: int, j: int|
                0 <= i < n && 0 <= j < n ==> (#[trigger] flat@[i * n + j])@ == received(
                    entries@,
                    (i as usize, j as usize),
                ),
            forall|a: int| 0 <= a < i ==> (#[trigger] out@[a])@.len() == n,
            forall|a: int, b: int|
                0 <= a < i && 0 <= b < n ==> (#[trigger] out@[a]@[b])@ == received(
                    entries@,
                    (a as usize, b as usize),
                ),
        decreases n - i,
    {
        let mut row: Vec<Vec<T>> = Vec::new();
        let mut j: usize = 0;
        while j < n
            invariant
                nn == n * n,
                i < n,
                j <= n,
                flat@.len() == nn,
                row@.len() == j,
                forall|i: int, j: int|
                    0 <= i < n && 0 <= j < n ==> (#[trigger] flat@[i * n + j])@ == received(
                        entries@,
                        (i as usize, j as usize),
                    ),
                forall|b: int|
                    0 <= b < j ==> (#[trigger] row@[b])@ == received(
                        entries@,
                        (i as usize, b as usize),
                    ),
            decreases n - j,
        {
            proof {
                lemma_flat_index(n as int, i as int, j as int, i as int, j as int);
            }
            row.push(copy_row(&flat[i * n + j]));
            j = j + 1;
        }
        out.push(row);
        i = i + 1;
    }
    out
}

} // verus!
