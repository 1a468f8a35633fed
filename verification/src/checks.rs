//! Sequences of shape checks: the first failure decides the result.
use vstd::prelude::*;
use crate::error::{mismatch_msg, checked, eq_check, first_failure, ni_check_shape_eq, res_view, NIError, NIErrorView};

verus! {

/// The checks `item(0)`, ..., `item(n - 1)` made in order: the first failure, if any.
pub open spec fn each_index(n: nat, item: spec_fn(int) -> Option<NIErrorView>) -> Option<NIErrorView>
    decreases n,
{
    if n == 0 {
        None
    } else {
        first_failure(each_index((n - 1) as nat, item), item(n - 1))
    }
}

/// Once one of the first `k` checks has failed, the later checks do not change
/// the outcome.
pub proof fn lemma_each_index_stops(n: nat, k: nat, item: spec_fn(int) -> Option<NIErrorView>)
    requires
        k <= n,
        each_index(k, item) is Some,
    ensures
        each_index(n, item) == each_index(k, item),
    decreases n,
{
    if n > k {
        lemma_each_index_stops((n - 1) as nat, k, item);
    }
}

/// When each of the checks passes, the sequence of checks passes.
pub proof fn lemma_each_index_all_none(n: nat, item: spec_fn(int) -> Option<NIErrorView>)
    requires
        forall|i: int| 0 <= i < n ==> #[trigger] item(i) is None,
    ensures
        each_index(n, item) is None,
    decreases n,
{
    if n > 0 {
        lemma_each_index_all_none((n - 1) as nat, item);
    }
}

/// When a sequence of checks passes, each of its checks passes.
pub proof fn lemma_each_index_none_item(n: nat, i: int, item: spec_fn(int) -> Option<NIErrorView>)
    requires
        each_index(n, item) is None,
        0 <= i < n,
    ensures
        item(i) is None,
    decreases n,
{
    if i < n - 1 {
        lemma_each_index_none_item((n - 1) as nat, i, item);
    }
}

/// The shape views of a list of shapes.
pub open spec fn shape_views(s: Seq<Vec<usize>>) -> Seq<Seq<usize>> {
    s.map_values(|v: Vec<usize>| v@)
}

/// Checks the number of dimensions of a tensor against `n`.
pub open spec fn ndim_check(shape: Seq<usize>, n: usize, msg: Seq<char>, src: Seq<char>, n_src: Seq<char>) -> Option<NIErrorView> {
    if shape.len() == n {
        None
    } else {
        Some(
            NIErrorView::ShapeMismatch {
                expected: seq![shape.len() as usize],
                actual: seq![n],
                msg: mismatch_msg(msg, src, n_src),
            },
        )
    }
}

/// Checks that two dimensions are equal.
pub open spec fn dim_check(a: usize, b: usize, msg: Seq<char>, a_src: Seq<char>, b_src: Seq<char>) -> Option<NIErrorView> {
    if a == b {
        None
    } else {
        Some(NIErrorView::ShapeMismatch { expected: seq![a], actual: seq![b], msg: mismatch_msg(msg, a_src, b_src) })
    }
}

/// A one-dimension comparison is the comparison of the two dimensions.
pub proof fn lemma_dim_check(a: usize, b: usize, msg: Seq<char>, a_src: Seq<char>, b_src: Seq<char>)
    ensures
        eq_check(seq![a], seq![b], msg, a_src, b_src) == dim_check(a, b, msg, a_src, b_src),
{
    if a != b {
        assert(seq![a][0] != seq![b][0]);
    }
}

/// A vector of one dimension.
pub fn dims1(a: usize) -> (v: Vec<usize>)
    ensures
        v@ == seq![a],
{
    let mut v: Vec<usize> = Vec::new();
    v.push(a);
    assert(v@ =~= seq![a]);
    v
}

/// A vector of two dimensions.
pub fn dims2(a: usize, b: usize) -> (v: Vec<usize>)
    ensures
        v@ == seq![a, b],
{
    let mut v = dims1(a);
    v.push(b);
    assert(v@ =~= seq![a, b]);
    v
}

/// A vector of three dimensions.
pub fn dims3(a: usize, b: usize, c: usize) -> (v: Vec<usize>)
    ensures
        v@ == seq![a, b, c],
{
    let mut v = dims2(a, b);
    v.push(c);
    assert(v@ =~= seq![a, b, c]);
    v
}

/// A vector of four dimensions.
pub fn dims4(a: usize, b: usize, c: usize, d: usize) -> (v: Vec<usize>)
    ensures
        v@ == seq![a, b, c, d],
{
    let mut v = dims3(a, b, c);
    v.push(d);
    assert(v@ =~= seq![a, b, c, d]);
    v
}

/// A vector of five dimensions.
pub fn dims5(a: usize, b: usize, c: usize, d: usize, e: usize) -> (v: Vec<usize>)
    ensures
        v@ == seq![a, b, c, d, e],
{
    let mut v = dims4(a, b, c, d);
    v.push(e);
    assert(v@ =~= seq![a, b, c, d, e]);
    v
}

/// A copy of a shape.
pub fn shape_vec(s: &[usize]) -> (v: Vec<usize>)
    ensures
        v@ == s@,
{
    let mut v: Vec<usize> = Vec::new();
    let mut i: usize = 0;
    while i < s.len()
        invariant
            0 <= i <= s.len(),
            v@ == s@.subrange(0, i as int),
        decreases s.len() - i,
    {
        v.push(s[i]);
        i = i + 1;
    }
    assert(v@ =~= s@);
    v
}

/// The first `k` dimensions of a shape.
pub fn shape_prefix(s: &[usize], k: usize) -> (v: Vec<usize>)
    requires
        k <= s.len(),
    ensures
        v@ == s@.subrange(0, k as int),
{
    let mut v: Vec<usize> = Vec::new();
    let mut i: usize = 0;
    while i < k
        invariant
            k <= s.len(),
            0 <= i <= k,
            v@ == s@.subrange(0, i as int),
        decreases k - i,
    {
        v.push(s[i]);
        i = i + 1;
    }
    v
}

/// Checks the number of dimensions of a tensor.
pub fn check_ndim(shape: &[usize], n: usize, msg: &str, src: &str, n_src: &str) -> (r: Result<(), NIError>)
    ensures
        res_view(r) == checked(ndim_check(shape@, n, msg@, src@, n_src@)),
{
    proof {
        lemma_dim_check(shape.len(), n, msg@, src@, n_src@);
    }
    ni_check_shape_eq(dims1(shape.len()), dims1(n), msg, src, n_src)
}

/// Checks that two dimensions are equal.
pub fn check_dim(a: usize, b: usize, msg: &str, a_src: &str, b_src: &str) -> (r: Result<(), NIError>)
    ensures
        res_view(r) == checked(dim_check(a, b, msg@, a_src@, b_src@)),
{
    proof {
        lemma_dim_check(a, b, msg@, a_src@, b_src@);
    }
    ni_check_shape_eq(dims1(a), dims1(b), msg, a_src, b_src)
}

/// `a * b`, or `None` when the product does not fit.
pub fn mul_or_none(a: usize, b: usize) -> (r: Option<usize>)
    ensures
        r matches Some(p) ==> p == a * b,
        r is None ==> a * b > usize::MAX,
{
    a.checked_mul(b)
}

/// Whether `len >= a * b`, on mathematical integers.
pub fn len_at_least(len: usize, a: usize, b: usize) -> (r: bool)
    ensures
        r == (len >= a * b),
{
    match mul_or_none(a, b) {
        Some(p) => len >= p,
        None => false,
    }
}

/// Whether `len >= k * a * b`, on mathematical integers.
pub fn len_at_least3(len: usize, k: usize, a: usize, b: usize) -> (r: bool)
    ensures
        r == (len >= k * a * b),
{
    match mul_or_none(k, a) {
        Some(p) => len_at_least(len, p, b),
        None => {
            proof {
                if b > 0 {
                    assert(k * a * b >= k * a) by (nonlinear_arith)
                        requires b > 0, k * a >= 0;
                }
            }
            if b == 0 {
                proof {
                    assert(k * a * b == 0) by (nonlinear_arith) requires b == 0;
                }
                true
            } else {
                false
            }
        },
    }
}

} // verus!
