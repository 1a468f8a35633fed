//! Splitting the grid into consecutive batches.
use vstd::prelude::*;
use vstd::arithmetic::div_mod::{lemma_fundamental_div_mod, lemma_fundamental_div_mod_converse};

verus! {

/// The number of batches of at most `size` points that cover `n` points.
pub open spec fn batch_count(n: nat, size: nat) -> nat
    recommends
        size > 0,
{
    ((n + size - 1) / size as int) as nat
}

/// The `i`-th batch: from `i * size` up to `(i + 1) * size`, cut at `n`.
pub open spec fn batch(n: nat, size: nat, i: nat) -> (usize, usize) {
    let start = i * size;
    let stop = if (i + 1) * size < n {
        (i + 1) * size
    } else {
        n
    };
    (start as usize, stop as usize)
}

/// Number of grid points that one task of the parallel potential handles.
pub const NGRIDS_CHUNK: usize = 384;

/// The batch count is the least number of batches of `size` points that reach `n`.
pub proof fn lemma_batch_count(n: nat, size: nat)
    requires
        size > 0,
    ensures
        batch_count(n, size) * size >= n,
        batch_count(n, size) == 0 || (batch_count(n, size) - 1) * size < n,
        n > 0 ==> batch_count(n, size) >= 1,
        n == 0 ==> batch_count(n, size) == 0,
{
    let c = batch_count(n, size);
    let x = (n + size - 1) as int;
    lemma_fundamental_div_mod(x, size as int);
    let r = x % size as int;
    assert(c == x / size as int);
    assert(x == size * c + r);
    assert((c - 1) * size == c * size - size) by (nonlinear_arith);
    assert(c * size == size * c) by (nonlinear_arith);
    if n == 0 {
        assert(c == 0) by (nonlinear_arith)
            requires x == size * c + r, 0 <= r < size, x == size - 1, c >= 0;
    }
    if n > 0 {
        assert(c >= 1) by (nonlinear_arith)
            requires x == size * c + r, 0 <= r < size, x >= size, c >= 0;
    }
}

/// The count of batches whose last batch ends at `n`.
proof fn lemma_batch_count_exact(n: nat, size: nat, c: nat)
    requires
        size > 0,
        c >= 1,
        c * size >= n,
        (c - 1) * size < n,
    ensures
        batch_count(n, size) == c,
{
    let x = (n + size - 1) as int;
    let r = x - c * size;
    assert((c - 1) * size == c * size - size) by (nonlinear_arith);
    assert(0 <= r < size);
    assert(x == c * size + r);
    lemma_fundamental_div_mod_converse(x, size as int, c as int, r);
}

/// The batches `[start, stop)` that cover the `ngrids` grid points, `nbatch`
/// at a time, in order.
pub fn grid_batches(ngrids: usize, nbatch: usize) -> (v: Vec<(usize, usize)>)
    requires
        nbatch > 0,
    ensures
        v@.len() == batch_count(ngrids as nat, nbatch as nat),
        forall|i: int| 0 <= i < v@.len() ==> #[trigger] v@[i] == batch(ngrids as nat, nbatch as nat, i as nat),
{
    let mut v: Vec<(usize, usize)> = Vec::new();
    let mut start: usize = 0;
    assert(v@.len() * nbatch == 0) by (nonlinear_arith)
        requires v@.len() == 0;
    while start < ngrids
        invariant
            nbatch > 0,
            start <= ngrids,
            start < ngrids ==> start == v@.len() * nbatch,
            start == ngrids ==> v@.len() * nbatch >= ngrids,
            v@.len() > 0 ==> (v@.len() - 1) * nbatch < ngrids,
            v@.len() == 0 ==> start == 0,
            forall|i: int| 0 <= i < v@.len() ==> #[trigger] v@[i] == batch(ngrids as nat, nbatch as nat, i as nat),
        decreases ngrids - start,
    {
        let ghost i = v@.len();
        proof {
            assert((i + 1) * nbatch == i * nbatch + nbatch) by (nonlinear_arith);
        }
        let stop = if ngrids - start > nbatch {
            start + nbatch
        } else {
            ngrids
        };
        v.push((start, stop));
        start = stop;
    }
    proof {
        if v@.len() == 0 {
            lemma_batch_count(ngrids as nat, nbatch as nat);
        } else {
            lemma_batch_count_exact(ngrids as nat, nbatch as nat, v@.len());
        }
    }
    v
}

/// The grid chunks of the parallel potential: `NGRIDS_CHUNK` points each, the
/// last one cut at `ngrids`.
pub fn parenh_grid_chunks(ngrids: usize) -> (v: Vec<(usize, usize)>)
    ensures
        v@.len() == batch_count(ngrids as nat, NGRIDS_CHUNK as nat),
        forall|i: int| 0 <= i < v@.len() ==> #[trigger] v@[i] == batch(ngrids as nat, NGRIDS_CHUNK as nat, i as nat),
{
    grid_batches(ngrids, NGRIDS_CHUNK)
}

/// The batches cover the grid exactly once, in order: the first starts at `0`,
/// each ends where the next starts, the last ends at `n`, and each holds between
/// one and `size` points.
pub proof fn law_batches_partition(n: nat, size: nat)
    requires
        size > 0,
        n <= usize::MAX,
    ensures
        n > 0 ==> batch(n, size, 0).0 == 0,
        n > 0 ==> batch(n, size, (batch_count(n, size) - 1) as nat).1 == n,
        forall|i: nat| #![trigger batch(n, size, i)] i + 1 < batch_count(n, size) ==> batch(n, size, i).1 == batch(n, size, i + 1).0,
        forall|i: nat| #![trigger batch(n, size, i)] i < batch_count(n, size) ==> batch(n, size, i).0 < batch(n, size, i).1 <= n
            && batch(n, size, i).1 - batch(n, size, i).0 <= size,
{
    let c = batch_count(n, size);
    lemma_batch_count(n, size);
    assert forall|i: nat| #![trigger batch(n, size, i)] i + 1 < c implies batch(n, size, i).1 == batch(n, size, i + 1).0 by {
        assert((i + 1) * size <= (c - 1) * size) by (nonlinear_arith)
            requires i + 1 <= c - 1, size > 0;
    }
    assert forall|i: nat| #![trigger batch(n, size, i)] i < c implies batch(n, size, i).0 < batch(n, size, i).1 <= n
        && batch(n, size, i).1 - batch(n, size, i).0 <= size by {
        assert(i * size <= (c - 1) * size) by (nonlinear_arith)
            requires i <= c - 1, size > 0;
        assert((i + 1) * size == i * size + size) by (nonlinear_arith);
    }
    if n > 0 {
        assert(((c - 1) as nat + 1) * size == c * size);
    }
}

} // verus!
