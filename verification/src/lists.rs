//! Shape checks over lists of matrices (density matrices, bras, kets).
use vstd::prelude::*;
use crate::checks::{lemma_each_index_none_item, check_dim, check_ndim, dim_check, each_index, lemma_each_index_stops, ndim_check, shape_prefix, dims2, shape_views};
use crate::error::{checked, eq_check, first_failure, ni_check_shape_eq, res_view, NIError, NIErrorView};

verus! {

/// Checks of one density matrix: two dimensions, then the leading `[nao, nao]`.
pub open spec fn dm_check(dm: Seq<usize>, nao: usize, ndim_msg: Seq<char>) -> Option<NIErrorView> {
    first_failure(
        ndim_check(dm, 2, ndim_msg, "dm.ndim()"@, "2"@),
        eq_check(
            dm.subrange(0, 2),
            seq![nao, nao],
            "Density matrix must match AO dimension"@,
            "dm.shape()[0..2]"@,
            "[nao, nao]"@,
        ),
    )
}

/// The density-matrix check applied to each matrix of a list.
pub open spec fn dm_item(dms: Seq<Seq<usize>>, nao: usize, ndim_msg: Seq<char>) -> spec_fn(int) -> Option<NIErrorView> {
    |i: int| dm_check(dms[i], nao, ndim_msg)
}

/// Checks of one matrix whose first dimension must be `nao`: two dimensions,
/// then the first dimension, compared with `nao` on the side `nao_first` says.
pub open spec fn lead_check(
    m: Seq<usize>,
    nao: usize,
    ndim_msg: Seq<char>,
    ndim_src: Seq<char>,
    lead_msg: Seq<char>,
    nao_first: bool,
    lead_src: Seq<char>,
) -> Option<NIErrorView> {
    first_failure(
        ndim_check(m, 2, ndim_msg, ndim_src, "2"@),
        if nao_first {
            dim_check(nao, m[0], lead_msg, "nao"@, lead_src)
        } else {
            dim_check(m[0], nao, lead_msg, lead_src, "nao"@)
        },
    )
}

/// The leading-dimension check applied to each matrix of a list.
pub open spec fn lead_item(
    ms: Seq<Seq<usize>>,
    nao: usize,
    ndim_msg: Seq<char>,
    ndim_src: Seq<char>,
    lead_msg: Seq<char>,
    nao_first: bool,
    lead_src: Seq<char>,
) -> spec_fn(int) -> Option<NIErrorView> {
    |i: int| lead_check(ms[i], nao, ndim_msg, ndim_src, lead_msg, nao_first, lead_src)
}

/// Checks of one ket that must have the shape `[nao, nocc]` of its bra.
pub open spec fn ket_check(
    ket: Seq<usize>,
    nao: usize,
    nocc: usize,
    ndim_msg: Seq<char>,
    nao_first: bool,
) -> Option<NIErrorView> {
    first_failure(
        lead_check(
            ket,
            nao,
            ndim_msg,
            "ket.ndim()"@,
            "Ket first dimension must match AO dimension"@,
            nao_first,
            "ket.shape()[0]"@,
        ),
        dim_check(ket[1], nocc, "Ket second dimension must match bra"@, "ket.shape()[1]"@, "nocc"@),
    )
}

/// The ket check applied to each ket of a list.
pub open spec fn ket_item(
    kets: Seq<Seq<usize>>,
    nao: usize,
    nocc: usize,
    ndim_msg: Seq<char>,
    nao_first: bool,
) -> spec_fn(int) -> Option<NIErrorView> {
    |i: int| ket_check(kets[i], nao, nocc, ndim_msg, nao_first)
}

/// Checks of one bra-ket pair: both two-dimensional, both with `nao` rows,
/// and the same number of columns.
pub open spec fn pair_check(
    bra: Seq<usize>,
    ket: Seq<usize>,
    nao: usize,
    bra_msg: Seq<char>,
    ket_msg: Seq<char>,
) -> Option<NIErrorView> {
    first_failure(
        ndim_check(bra, 2, bra_msg, "bra.ndim()"@, "2"@),
        first_failure(
            ndim_check(ket, 2, ket_msg, "ket.ndim()"@, "2"@),
            first_failure(
                dim_check(nao, bra[0], "Bra first dimension must match AO dimension"@, "nao"@, "bra.shape()[0]"@),
                first_failure(
                    dim_check(nao, ket[0], "Ket first dimension must match AO dimension"@, "nao"@, "ket.shape()[0]"@),
                    dim_check(bra[1], ket[1], "Bra and ket occupation must match"@, "bra.shape()[1]"@, "ket.shape()[1]"@),
                ),
            ),
        ),
    )
}

/// The pair check applied to each pair of two lists (as far as the shorter reaches).
pub open spec fn pair_item(
    bras: Seq<Seq<usize>>,
    kets: Seq<Seq<usize>>,
    nao: usize,
    bra_msg: Seq<char>,
    ket_msg: Seq<char>,
) -> spec_fn(int) -> Option<NIErrorView> {
    |i: int| pair_check(bras[i], kets[i], nao, bra_msg, ket_msg)
}

/// The largest second dimension over a list of matrices, or `0` for an empty list.
pub open spec fn max_cols(ms: Seq<Seq<usize>>) -> nat
    decreases ms.len(),
{
    if ms.len() == 0 {
        0
    } else {
        let rest = max_cols(ms.drop_last());
        let c = ms.last()[1] as nat;
        if c > rest {
            c
        } else {
            rest
        }
    }
}

/// Each shape of a list must equal `expected`.
pub open spec fn same_shape_item(
    shapes: Seq<Seq<usize>>,
    expected: Seq<usize>,
    msg: Seq<char>,
    src: Seq<char>,
    expected_src: Seq<char>,
) -> spec_fn(int) -> Option<NIErrorView> {
    |i: int| eq_check(shapes[i], expected, msg, src, expected_src)
}

/// Checks that each shape of a list equals `expected`.
pub fn check_each_shape_eq(shapes: &[Vec<usize>], expected: &Vec<usize>, msg: &str, src: &str, expected_src: &str) -> (r: Result<
    (),
    NIError,
>)
    ensures
        res_view(r) == checked(
            each_index(shapes@.len(), same_shape_item(shape_views(shapes@), expected@, msg@, src@, expected_src@)),
        ),
{
    let ghost item = same_shape_item(shape_views(shapes@), expected@, msg@, src@, expected_src@);
    let mut i: usize = 0;
    while i < shapes.len()
        invariant
            0 <= i <= shapes.len(),
            item == same_shape_item(shape_views(shapes@), expected@, msg@, src@, expected_src@),
            each_index(i as nat, item) is None,
        decreases shapes.len() - i,
    {
        let failed = ni_check_shape_eq(crate::checks::shape_vec(shapes[i].as_slice()), crate::checks::shape_vec(expected.as_slice()), msg, src, expected_src);
        assert(res_view(failed) == checked(item(i as int)));
        if failed.is_err() {
            proof {
                lemma_each_index_stops(shapes@.len(), (i + 1) as nat, item);
            }
            return failed;
        }
        i = i + 1;
    }
    Ok(())
}

/// The largest second dimension bounds the second dimension of every matrix
/// of the list and is the second dimension of one of them; it is `0` only for
/// an empty list or one whose matrices all have no columns.
pub proof fn law_max_cols_is_maximum(ms: Seq<Seq<usize>>)
    ensures
        forall|i: int| 0 <= i < ms.len() ==> max_cols(ms) >= #[trigger] ms[i][1],
        ms.len() > 0 ==> exists|i: int| 0 <= i < ms.len() && max_cols(ms) == #[trigger] ms[i][1],
        ms.len() == 0 ==> max_cols(ms) == 0,
    decreases ms.len(),
{
    if ms.len() > 0 {
        let d = ms.drop_last();
        law_max_cols_is_maximum(d);
        assert forall|i: int| 0 <= i < ms.len() implies max_cols(ms) >= #[trigger] ms[i][1] by {
            if i < ms.len() - 1 {
                assert(ms[i] == d[i]);
            }
        }
        let last = ms.len() - 1;
        if (ms.last()[1] as nat) > max_cols(d) || d.len() == 0 {
            assert(max_cols(ms) == ms[last][1]);
        } else {
            let j = choose|j: int| 0 <= j < d.len() && max_cols(d) == #[trigger] d[j][1];
            assert(ms[j] == d[j]);
            assert(max_cols(ms) == ms[j][1]);
        }
    }
}

/// Checks each density matrix of a list.
pub fn check_dm_list(dms: &[Vec<usize>], nao: usize, ndim_msg: &str) -> (r: Result<(), NIError>)
    ensures
        res_view(r) == checked(each_index(dms@.len(), dm_item(shape_views(dms@), nao, ndim_msg@))),
{
    let ghost item = dm_item(shape_views(dms@), nao, ndim_msg@);
    let mut i: usize = 0;
    while i < dms.len()
        invariant
            0 <= i <= dms.len(),
            item == dm_item(shape_views(dms@), nao, ndim_msg@),
            each_index(i as nat, item) is None,
        decreases dms.len() - i,
    {
        let dm = dms[i].as_slice();
        let r1 = check_ndim(dm, 2, ndim_msg, "dm.ndim()", "2");
        let failed = if r1.is_err() {
            r1
        } else {
            ni_check_shape_eq(
                shape_prefix(dm, 2),
                dims2(nao, nao),
                "Density matrix must match AO dimension",
                "dm.shape()[0..2]",
                "[nao, nao]",
            )
        };
        assert(res_view(failed) == checked(item(i as int)));
        if failed.is_err() {
            proof {
                lemma_each_index_stops(dms@.len(), (i + 1) as nat, item);
            }
            return failed;
        }
        i = i + 1;
    }
    Ok(())
}

/// Checks each matrix of a list for two dimensions and `nao` rows.
pub fn check_lead_list(
    ms: &[Vec<usize>],
    nao: usize,
    ndim_msg: &str,
    ndim_src: &str,
    lead_msg: &str,
    nao_first: bool,
    lead_src: &str,
) -> (r: Result<(), NIError>)
    ensures
        res_view(r) == checked(
            each_index(
                ms@.len(),
                lead_item(shape_views(ms@), nao, ndim_msg@, ndim_src@, lead_msg@, nao_first, lead_src@),
            ),
        ),
{
    let ghost item = lead_item(shape_views(ms@), nao, ndim_msg@, ndim_src@, lead_msg@, nao_first, lead_src@);
    let mut i: usize = 0;
    while i < ms.len()
        invariant
            0 <= i <= ms.len(),
            item == lead_item(shape_views(ms@), nao, ndim_msg@, ndim_src@, lead_msg@, nao_first, lead_src@),
            each_index(i as nat, item) is None,
        decreases ms.len() - i,
    {
        let m = ms[i].as_slice();
        let failed = check_lead(m, nao, ndim_msg, ndim_src, lead_msg, nao_first, lead_src);
        assert(res_view(failed) == checked(item(i as int)));
        if failed.is_err() {
            proof {
                lemma_each_index_stops(ms@.len(), (i + 1) as nat, item);
            }
            return failed;
        }
        i = i + 1;
    }
    Ok(())
}

/// Checks one matrix for two dimensions and `nao` rows.
pub fn check_lead(
    m: &[usize],
    nao: usize,
    ndim_msg: &str,
    ndim_src: &str,
    lead_msg: &str,
    nao_first: bool,
    lead_src: &str,
) -> (r: Result<(), NIError>)
    ensures
        res_view(r) == checked(lead_check(m@, nao, ndim_msg@, ndim_src@, lead_msg@, nao_first, lead_src@)),
{
    let r1 = check_ndim(m, 2, ndim_msg, ndim_src, "2");
    if r1.is_err() {
        return r1;
    }
    if nao_first {
        check_dim(nao, m[0], lead_msg, "nao", lead_src)
    } else {
        check_dim(m[0], nao, lead_msg, lead_src, "nao")
    }
}

/// Checks each ket of a list against the bra shape `[nao, nocc]`.
pub fn check_ket_list(kets: &[Vec<usize>], nao: usize, nocc: usize, ndim_msg: &str, nao_first: bool) -> (r: Result<
    (),
    NIError,
>)
    ensures
        res_view(r) == checked(each_index(kets@.len(), ket_item(shape_views(kets@), nao, nocc, ndim_msg@, nao_first))),
{
    let ghost item = ket_item(shape_views(kets@), nao, nocc, ndim_msg@, nao_first);
    let mut i: usize = 0;
    while i < kets.len()
        invariant
            0 <= i <= kets.len(),
            item == ket_item(shape_views(kets@), nao, nocc, ndim_msg@, nao_first),
            each_index(i as nat, item) is None,
        decreases kets.len() - i,
    {
        let ket = kets[i].as_slice();
        let r1 = check_lead(
            ket,
            nao,
            ndim_msg,
            "ket.ndim()",
            "Ket first dimension must match AO dimension",
            nao_first,
            "ket.shape()[0]",
        );
        let failed = if r1.is_err() {
            r1
        } else {
            check_dim(ket[1], nocc, "Ket second dimension must match bra", "ket.shape()[1]", "nocc")
        };
        assert(res_view(failed) == checked(item(i as int)));
        if failed.is_err() {
            proof {
                lemma_each_index_stops(kets@.len(), (i + 1) as nat, item);
            }
            return failed;
        }
        i = i + 1;
    }
    Ok(())
}

/// Checks each bra-ket pair of two lists, as far as the shorter list reaches.
pub fn check_pair_list(bras: &[Vec<usize>], kets: &[Vec<usize>], nao: usize, bra_msg: &str, ket_msg: &str) -> (r:
    Result<(), NIError>)
    ensures
        res_view(r) == checked(
            each_index(
                if bras@.len() <= kets@.len() { bras@.len() } else { kets@.len() },
                pair_item(shape_views(bras@), shape_views(kets@), nao, bra_msg@, ket_msg@),
            ),
        ),
{
    let ghost item = pair_item(shape_views(bras@), shape_views(kets@), nao, bra_msg@, ket_msg@);
    let n = if bras.len() <= kets.len() {
        bras.len()
    } else {
        kets.len()
    };
    let mut i: usize = 0;
    while i < n
        invariant
            0 <= i <= n,
            n <= bras.len(),
            n <= kets.len(),
            n == (if bras@.len() <= kets@.len() { bras@.len() } else { kets@.len() }),
            item == pair_item(shape_views(bras@), shape_views(kets@), nao, bra_msg@, ket_msg@),
            each_index(i as nat, item) is None,
        decreases n - i,
    {
        let bra = bras[i].as_slice();
        let ket = kets[i].as_slice();
        let failed = check_pair(bra, ket, nao, bra_msg, ket_msg);
        assert(res_view(failed) == checked(item(i as int)));
        if failed.is_err() {
            proof {
                lemma_each_index_stops(n as nat, (i + 1) as nat, item);
            }
            return failed;
        }
        i = i + 1;
    }
    Ok(())
}

/// Checks one bra-ket pair.
pub fn check_pair(bra: &[usize], ket: &[usize], nao: usize, bra_msg: &str, ket_msg: &str) -> (r: Result<
    (),
    NIError,
>)
    ensures
        res_view(r) == checked(pair_check(bra@, ket@, nao, bra_msg@, ket_msg@)),
{
    let r = check_ndim(bra, 2, bra_msg, "bra.ndim()", "2");
    if r.is_err() {
        return r;
    }
    let r = check_ndim(ket, 2, ket_msg, "ket.ndim()", "2");
    if r.is_err() {
        return r;
    }
    let r = check_dim(nao, bra[0], "Bra first dimension must match AO dimension", "nao", "bra.shape()[0]");
    if r.is_err() {
        return r;
    }
    let r = check_dim(nao, ket[0], "Ket first dimension must match AO dimension", "nao", "ket.shape()[0]");
    if r.is_err() {
        return r;
    }
    check_dim(bra[1], ket[1], "Bra and ket occupation must match", "bra.shape()[1]", "ket.shape()[1]")
}

/// When every matrix of a list passes the leading-dimension check, every
/// matrix has two dimensions.
pub proof fn lemma_lead_list_ok(
    ms: Seq<Seq<usize>>,
    nao: usize,
    ndim_msg: Seq<char>,
    ndim_src: Seq<char>,
    lead_msg: Seq<char>,
    nao_first: bool,
    lead_src: Seq<char>,
)
    requires
        each_index(ms.len(), lead_item(ms, nao, ndim_msg, ndim_src, lead_msg, nao_first, lead_src)) is None,
    ensures
        forall|i: int| 0 <= i < ms.len() ==> #[trigger] ms[i].len() == 2,
{
    let item = lead_item(ms, nao, ndim_msg, ndim_src, lead_msg, nao_first, lead_src);
    assert forall|i: int| 0 <= i < ms.len() implies #[trigger] ms[i].len() == 2 by {
        lemma_each_index_none_item(ms.len(), i, item);
    }
}

/// The largest second dimension over a list of matrices, `0` for an empty list.
pub fn max_cols_of(ms: &[Vec<usize>]) -> (r: usize)
    requires
        forall|i: int| 0 <= i < ms@.len() ==> #[trigger] shape_views(ms@)[i].len() >= 2,
    ensures
        r == max_cols(shape_views(ms@)),
        forall|i: int| 0 <= i < ms@.len() ==> r >= #[trigger] ms@[i]@[1],
        ms@.len() > 0 ==> exists|i: int| 0 <= i < ms@.len() && r == #[trigger] ms@[i]@[1],
        ms@.len() == 0 ==> r == 0,
{
    let ghost views = shape_views(ms@);
    let mut best: usize = 0;
    let mut i: usize = 0;
    while i < ms.len()
        invariant
            0 <= i <= ms.len(),
            views == shape_views(ms@),
            forall|j: int| 0 <= j < ms@.len() ==> #[trigger] views[j].len() >= 2,
            best == max_cols(views.subrange(0, i as int)),
        decreases ms.len() - i,
    {
        assert(views.subrange(0, i as int + 1).drop_last() =~= views.subrange(0, i as int));
        assert(views[i as int] == ms@[i as int]@);
        let c = ms[i][1];
        if c > best {
            best = c;
        }
        i = i + 1;
    }
    assert(views.subrange(0, ms@.len() as int) =~= views);
    proof {
        law_max_cols_is_maximum(views);
        assert forall|i: int| 0 <= i < ms@.len() implies best >= #[trigger] ms@[i]@[1] by {
            assert(views[i] == ms@[i]@);
        }
        if ms@.len() > 0 {
            let j = choose|j: int| 0 <= j < views.len() && max_cols(views) == #[trigger] views[j][1];
            assert(views[j] == ms@[j]@);
            assert(best == ms@[j]@[1]);
        }
    }
    best
}

} // verus!
