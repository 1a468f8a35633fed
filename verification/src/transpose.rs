//! In-place transposition of a column-major block of values.
use vstd::prelude::*;
use vstd::arithmetic::div_mod::{lemma_fundamental_div_mod_converse, lemma_fundamental_div_mod};

verus! {

/// The values after transposing the leading `m * n` block, read as an `[m, n]`
/// column-major matrix, into an `[n, m]` one: position `j * n + i` receives the
/// value at `i * m + j`. Values past the block stay.
pub open spec fn transposed<T>(s: Seq<T>, m: nat, n: nat) -> Seq<T> {
    Seq::new(
        s.len(),
        |k: int|
            if k < m * n {
                s[(k % n as int) * m + k / n as int]
            } else {
                s[k]
            },
    )
}

/// Position `q * d + r` with `r < d` has quotient `q` and remainder `r` by `d`.
proof fn lemma_split(q: int, r: int, d: int)
    requires
        0 <= r < d,
    ensures
        (q * d + r) / d == q,
        (q * d + r) % d == r,
{
    lemma_fundamental_div_mod_converse(q * d + r, d, q, r);
}

/// The source position of a block position lies in the block.
proof fn lemma_source_in_block(k: int, m: int, n: int)
    requires
        0 <= k < m * n,
        m > 0,
        n > 0,
    ensures
        0 <= (k % n) * m + k / n < m * n,
{
    lemma_fundamental_div_mod(k, n);
    let i = k % n;
    let j = k / n;
    assert(0 <= i < n);
    assert(0 <= j < m) by (nonlinear_arith)
        requires k == n * j + i, 0 <= i < n, k < m * n, 0 <= k;
    assert((k % n) * m + k / n < m * n) by (nonlinear_arith)
        requires 0 <= i < n, 0 <= j < m, i == k % n, j == k / n;
    assert(0 <= (k % n) * m + k / n) by (nonlinear_arith)
        requires 0 <= i, 0 <= j, i == k % n, j == k / n, m > 0;
}

/// Transposes in place the leading `m * n` values of `slc`, an `[m, n]`
/// column-major matrix, into an `[n, m]` column-major matrix.
pub fn transpose_inplace<T: Copy>(slc: &mut [T], m: usize, n: usize)
    requires
        old(slc)@.len() >= n * m,
    ensures
        final(slc)@ == transposed(old(slc)@, m as nat, n as nat),
{
    let ghost src = slc@;
    let len = slc.len();
    assert(n * m <= usize::MAX);
    let mut buffer: Vec<T> = Vec::new();
    let mut j: usize = 0;
    while j < m
        invariant
            slc@ == src,
            src.len() >= n * m,
            n * m <= usize::MAX,
            0 <= j <= m,
            buffer@.len() == j * n,
            forall|k: int| 0 <= k < buffer@.len() ==> #[trigger] buffer@[k] == src[(k % n as int) * m + k / n as int],
        decreases m - j,
    {
        let mut i: usize = 0;
        while i < n
            invariant
                slc@ == src,
                src.len() >= n * m,
                n * m <= usize::MAX,
                0 <= j < m,
                0 <= i <= n,
                buffer@.len() == j * n + i,
                forall|k: int| 0 <= k < buffer@.len() ==> #[trigger] buffer@[k] == src[(k % n as int) * m + k / n as int],
            decreases n - i,
        {
            proof {
                assert(i * m + j < n * m) by (nonlinear_arith)
                    requires i < n, j < m;
                lemma_split(j as int, i as int, n as int);
            }
            let v = slc[i * m + j];
            buffer.push(v);
            i = i + 1;
        }
        proof {
            assert(j * n + n == (j + 1) * n) by (nonlinear_arith);
        }
        j = j + 1;
    }
    proof {
        assert(m * n == n * m) by (nonlinear_arith);
    }
    let total = buffer.len();
    let mut k: usize = 0;
    while k < total
        invariant
            total == buffer@.len(),
            total == m * n,
            src.len() >= n * m,
            slc@.len() == src.len(),
            0 <= k <= total,
            forall|t: int| 0 <= t < k ==> #[trigger] slc@[t] == buffer@[t],
            forall|t: int| k <= t < slc@.len() ==> #[trigger] slc@[t] == src[t],
            forall|t: int| 0 <= t < buffer@.len() ==> #[trigger] buffer@[t] == src[(t % n as int) * m + t / n as int],
        decreases total - k,
    {
        slc[k] = buffer[k];
        k = k + 1;
    }
    assert(slc@ =~= transposed(src, m as nat, n as nat));
}

/// Transposing an `[m, n]` block and then the resulting `[n, m]` block gives
/// back the original values.
pub proof fn law_transpose_twice<T>(s: Seq<T>, m: nat, n: nat)
    requires
        s.len() >= m * n,
    ensures
        transposed(transposed(s, m, n), n, m) == s,
{
    let t1 = transposed(s, m, n);
    let t2 = transposed(t1, n, m);
    assert(n * m == m * n) by (nonlinear_arith);
    assert forall|k: int| 0 <= k < s.len() implies #[trigger] t2[k] == s[k] by {
        if k < m * n {
            assert(m > 0 && n > 0) by (nonlinear_arith)
                requires 0 <= k < m * n;
            let q = k / m as int;
            let r = k % m as int;
            lemma_fundamental_div_mod(k, m as int);
            let p = r * n + q;
            assert(p == (k % m as int) * n + k / m as int);
            lemma_source_in_block(k, n as int, m as int);
            assert(0 <= q < n) by (nonlinear_arith)
                requires k == m * q + r, 0 <= r < m, 0 <= k < m * n;
            lemma_split(r, q, n as int);
            assert(t1[p] == s[(p % n as int) * m + p / n as int]);
            assert((p % n as int) * m + p / n as int == q * m + r);
            assert(q * m + r == k) by (nonlinear_arith)
                requires k == m * q + r;
        }
    }
    assert(t2 =~= s);
}

} // verus!
