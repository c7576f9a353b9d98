//! Attaching child rows to their parent rows (taxes to invoice items,
//! related documents to payments, taxes to related documents), keeping the
//! children in the order they were read.

use vstd::prelude::*;

verus! {

/// The positions `j < n`, in increasing order, at which `keys[j] == k`.
pub open spec fn positions_upto(keys: Seq<i32>, k: i32, n: nat) -> Seq<usize>
    decreases n,
{
    if n == 0 {
        seq![]
    } else if keys[n - 1] == k {
        positions_upto(keys, k, (n - 1) as nat).push((n - 1) as usize)
    } else {
        positions_upto(keys, k, (n - 1) as nat)
    }
}

/// The positions, in increasing order, of the children whose parent key is
/// `k`.
pub open spec fn positions(keys: Seq<i32>, k: i32) -> Seq<usize> {
    positions_upto(keys, k, keys.len())
}

/// The positions of the children whose parent key is `k`.
pub fn children_of(child_keys: &Vec<i32>, k: i32) -> (res: Vec<usize>)
    ensures
        res@ == positions(child_keys@, k),
{
    let mut res: Vec<usize> = Vec::new();
    let mut j: usize = 0;
    while j < child_keys.len()
        invariant
            j <= child_keys.len(),
            res@ == positions_upto(child_keys@, k, j as nat),
        decreases child_keys.len() - j,
    {
        if child_keys[j] == k {
            res.push(j);
        }
        j = j + 1;
    }
    res
}

/// For each parent, in order, the positions of its children: those whose
/// parent key equals the parent's key.
pub fn group_by_parent(parent_keys: &Vec<i32>, child_keys: &Vec<i32>) -> (res: Vec<Vec<usize>>)
    ensures
        res@.len() == parent_keys@.len(),
        forall|i: int| 0 <= i < res@.len() ==> (#[trigger] res@[i])@ == positions(child_keys@, parent_keys@[i]),
{
    let mut res: Vec<Vec<usize>> = Vec::new();
    let mut i: usize = 0;
    while i < parent_keys.len()
        invariant
            i <= parent_keys.len(),
            res@.len() == i,
            forall|m: int| 0 <= m < i ==> (#[trigger] res@[m])@ == positions(child_keys@, parent_keys@[m]),
        decreases parent_keys.len() - i,
    {
        res.push(children_of(child_keys, parent_keys[i]));
        i = i + 1;
    }
    res
}

proof fn positions_upto_members(keys: Seq<i32>, k: i32, n: nat, j: int)
    requires
        n <= keys.len() <= usize::MAX,
        0 <= j < keys.len(),
    ensures
        positions_upto(keys, k, n).contains(j as usize) <==> (j < n && keys[j] == k),
        forall|a: int| 0 <= a < positions_upto(keys, k, n).len() ==> positions_upto(keys, k, n)[a] < n,
        forall|a: int, b: int|
            0 <= a < b < positions_upto(keys, k, n).len() ==> positions_upto(keys, k, n)[a] < positions_upto(
                keys,
                k,
                n,
            )[b],
    decreases n,
{
    if n > 0 {
        positions_upto_members(keys, k, (n - 1) as nat, j);
        let p = positions_upto(keys, k, (n - 1) as nat);
        let last = (n - 1) as usize;
        if keys[n - 1] == k {
            let q = p.push(last);
            assert(q[p.len() as int] == last);
            if j < n && keys[j] == k {
                if j == n - 1 {
                    assert(q.contains(j as usize));
                } else {
                    let w = choose|w: int| 0 <= w < p.len() && p[w] == j as usize;
                    assert(q[w] == j as usize);
                    assert(q.contains(j as usize));
                }
            }
            if q.contains(j as usize) {
                let w = choose|w: int| 0 <= w < q.len() && q[w] == j as usize;
                if w < p.len() {
                    assert(p[w] == j as usize);
                    assert(p.contains(j as usize));
                } else {
                    assert(j == n - 1);
                }
            }
        }
    }
}

/// A child is attached to a parent exactly when their keys match, and the
/// children of a parent keep the order in which they were read.
pub proof fn grouping_is_exact(child_keys: Seq<i32>, k: i32, j: int)
    requires
        0 <= j < child_keys.len() <= usize::MAX,
    ensures
        positions(child_keys, k).contains(j as usize) <==> child_keys[j] == k,
        forall|a: int, b: int|
            0 <= a < b < positions(child_keys, k).len() ==> positions(child_keys, k)[a] < positions(
                child_keys,
                k,
            )[b],
{
    positions_upto_members(child_keys, k, child_keys.len(), j);
}

} // verus!
