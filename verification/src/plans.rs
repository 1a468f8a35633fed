//! What the driver routines allocate before they call the density and potential
//! routines: output shapes and scratch sizes, after the driver's own checks.
use vstd::prelude::*;
use crate::checks::{dims2, dims3, dims4, dims5, each_index, lemma_each_index_all_none, lemma_each_index_none_item, shape_views};
use crate::error::{cond_check, eq_check, first_failure, ni_check_shape_cond, ni_check_shape_eq, NIError, NIErrorView};
use crate::eval_rho::{
    homogeneous_bra_item, rho_from_dm_checks, rho_from_homogeneous_braket_checks, rho_from_mult_bra_mult_ket_checks,
    rho_from_one_bra_mult_ket_checks,
};
use crate::flags::{ao_components, rho_components, NIDenType};
use crate::lists::{
    check_dm_list, check_ket_list, check_lead, check_lead_list, check_pair_list, dm_item, ket_item, lead_check, lead_item, max_cols,
    max_cols_of, pair_item,
};

verus! {

/// The output shape and scratch size that a density routine is handed.
pub struct RhoPlan {
    pub out_shape: Vec<usize>,
    pub buf_len: usize,
}

/// `k * a * b`, which fits.
fn mul3(k: usize, a: usize, b: usize) -> (r: usize)
    requires
        k * a * b <= usize::MAX,
    ensures
        r == k * a * b,
{
    if b == 0 {
        assert(k * a * b == 0) by (nonlinear_arith)
            requires b == 0;
        0
    } else {
        assert(k * a <= k * a * b) by (nonlinear_arith)
            requires b > 0, k >= 0, a >= 0;
        k * a * b
    }
}

/// The density output shape `[ngrids, nvar, nset]`.
pub open spec fn rho_out_shape(ngrids: usize, den: NIDenType, nset: nat) -> Seq<usize> {
    seq![ngrids, rho_components(den) as usize, nset as usize]
}

/// The driver's checks of the bras whose kets are themselves.
pub open spec fn driver_bra_item(bras: Seq<Seq<usize>>, nao: usize) -> spec_fn(int) -> Option<NIErrorView> {
    lead_item(bras, nao, "Each braket must be 2D"@, "bra.ndim()"@, "Bra's first dimension must match AO dimension"@, false, "bra.shape()[0]"@)
}

/// The driver's check of the shared bra.
pub open spec fn driver_bra_check(bra: Seq<usize>, nao: usize) -> Option<NIErrorView> {
    lead_check(bra, nao, "Bra must be 2D"@, "bra.ndim()"@, "Bra first dimension must match AO dimension"@, false, "bra.shape()[0]"@)
}

/// Plans the density from density matrices on cached AO values `ao`
/// (`[ngrids, nao, ncomp]`): each density matrix must be `[nao, nao]`; the output
/// is `[ngrids, nvar, nset]` and the scratch holds `ngrids * nao` values.
pub fn plan_make_rho_from_dm(ao_shape: &[usize], dm_shapes: &[Vec<usize>], den_type: NIDenType) -> (r: Result<RhoPlan, NIError>)
    requires
        ao_shape@.len() >= 2,
        each_index(dm_shapes@.len(), dm_item(shape_views(dm_shapes@), ao_shape@[1], "Each density matrix must be 2D"@)) is None
            ==> ao_shape@[0] * ao_shape@[1] <= usize::MAX,
    ensures
        r is Ok <==> each_index(dm_shapes@.len(), dm_item(shape_views(dm_shapes@), ao_shape@[1], "Each density matrix must be 2D"@)) is None,
        r matches Err(e) ==> Some(e@) == each_index(
            dm_shapes@.len(),
            dm_item(shape_views(dm_shapes@), ao_shape@[1], "Each density matrix must be 2D"@),
        ),
        r matches Ok(p) ==> p.out_shape@ == rho_out_shape(ao_shape@[0], den_type, dm_shapes@.len()) && p.buf_len == ao_shape@[0]
            * ao_shape@[1],
{
    let ngrids = ao_shape[0];
    let nao = ao_shape[1];
    let r = check_dm_list(dm_shapes, nao, "Each density matrix must be 2D");
    match r {
        Err(e) => Err(e),
        Ok(()) => Ok(RhoPlan { out_shape: dims3(ngrids, den_type.num_nvar(), dm_shapes.len()), buf_len: ngrids * nao }),
    }
}

/// Once the driver's checks of density matrices pass and the cached AO values
/// hold the components the density type reads, the density routine's own checks
/// pass on the planned output and scratch.
pub proof fn law_make_rho_from_dm_plan_passes(ao: Seq<usize>, dms: Seq<Seq<usize>>, den: NIDenType)
    requires
        ao.len() == 3,
        ao[0] * ao[1] <= usize::MAX,
        ao[2] >= ao_components(den),
        each_index(dms.len(), dm_item(dms, ao[1], "Each density matrix must be 2D"@)) is None,
        dms.len() <= usize::MAX,
    ensures
        rho_from_dm_checks(ao, dms, den, rho_out_shape(ao[0], den, dms.len()), (ao[0] * ao[1]) as nat) is None,
{
}

/// A scratch of `k * ngrid * nocc_max` values holds `k * ngrid * nocc` values
/// for the column count `nocc` of every matrix of the list.
pub proof fn law_plan_buffer_covers_each_matrix(ngrid: nat, k: nat, ms: Seq<Seq<usize>>)
    ensures
        forall|i: int| 0 <= i < ms.len() ==> k * ngrid * max_cols(ms) >= k * ngrid * #[trigger] ms[i][1],
{
    crate::lists::law_max_cols_is_maximum(ms);
    assert forall|i: int| 0 <= i < ms.len() implies k * ngrid * max_cols(ms) >= k * ngrid * #[trigger] ms[i][1] by {
        let a = max_cols(ms);
        let b = ms[i][1] as nat;
        assert(a >= b);
        assert(k * ngrid * a >= k * ngrid * b) by (nonlinear_arith)
            requires a >= b;
    }
}

/// Plans the density from bras equal to their kets on cached AO values: each
/// bra must be `[nao, nocc_i]`; the output is `[ngrid, nvar, nset]` and the
/// scratch holds `2 * ngrid * nocc_max` values.
pub fn plan_make_rho_from_homogeneous_braket(ao_shape: &[usize], bra_shapes: &[Vec<usize>], den_type: NIDenType) -> (r: Result<
    RhoPlan,
    NIError,
>)
    requires
        ao_shape@.len() >= 2,
        each_index(bra_shapes@.len(), driver_bra_item(shape_views(bra_shapes@), ao_shape@[1])) is None ==> 2 * ao_shape@[0]
            * max_cols(shape_views(bra_shapes@)) <= usize::MAX,
    ensures
        r is Ok <==> each_index(bra_shapes@.len(), driver_bra_item(shape_views(bra_shapes@), ao_shape@[1])) is None,
        r matches Err(e) ==> Some(e@) == each_index(bra_shapes@.len(), driver_bra_item(shape_views(bra_shapes@), ao_shape@[1])),
        r matches Ok(p) ==> p.out_shape@ == rho_out_shape(ao_shape@[0], den_type, bra_shapes@.len()) && p.buf_len == 2
            * ao_shape@[0] * max_cols(shape_views(bra_shapes@)),
        r matches Ok(p) ==> forall|i: int|
            0 <= i < bra_shapes@.len() ==> p.buf_len >= 2 * ao_shape@[0] * #[trigger] bra_shapes@[i]@[1],
{
    let ngrid = ao_shape[0];
    let nao = ao_shape[1];
    let r = check_lead_list(
        bra_shapes,
        nao,
        "Each braket must be 2D",
        "bra.ndim()",
        "Bra's first dimension must match AO dimension",
        false,
        "bra.shape()[0]",
    );
    if let Err(e) = r {
        return Err(e);
    }
    proof {
        crate::lists::lemma_lead_list_ok(
            shape_views(bra_shapes@),
            nao,
            "Each braket must be 2D"@,
            "bra.ndim()"@,
            "Bra's first dimension must match AO dimension"@,
            false,
            "bra.shape()[0]"@,
        );
    }
    let nocc_max = max_cols_of(bra_shapes);
    proof {
        law_plan_buffer_covers_each_matrix(ngrid as nat, 2, shape_views(bra_shapes@));
        assert forall|i: int| 0 <= i < bra_shapes@.len() implies 2 * ngrid * nocc_max >= 2 * ngrid * #[trigger] bra_shapes@[i]@[1] by {
            assert(shape_views(bra_shapes@)[i] == bra_shapes@[i]@);
        }
    }
    Ok(RhoPlan { out_shape: dims3(ngrid, den_type.num_nvar(), bra_shapes.len()), buf_len: mul3(2, ngrid, nocc_max) })
}

/// Once the driver's checks of bras pass and the cached AO values hold the
/// components the density type reads, the density routine's own checks pass on
/// the planned output and scratch.
pub proof fn law_make_rho_from_homogeneous_braket_plan_passes(ao: Seq<usize>, bras: Seq<Seq<usize>>, den: NIDenType)
    requires
        ao.len() == 3,
        ao[2] >= ao_components(den),
        each_index(bras.len(), driver_bra_item(bras, ao[1])) is None,
        2 * ao[0] * max_cols(bras) <= usize::MAX,
        bras.len() <= usize::MAX,
    ensures
        rho_from_homogeneous_braket_checks(ao, bras, den, rho_out_shape(ao[0], den, bras.len()), (2 * ao[0] * max_cols(bras)) as nat)
            is None,
{
    let a = driver_bra_item(bras, ao[1]);
    let b = homogeneous_bra_item(bras, ao[1], "Each bra must be 2D"@);
    assert forall|i: int| 0 <= i < bras.len() implies #[trigger] b(i) is None by {
        lemma_each_index_none_item(bras.len(), i, a);
    }
    lemma_each_index_all_none(bras.len(), b);
}

/// Plans the density from one bra `[nao, nocc]` and kets of the same shape on
/// cached AO values: the output is `[ngrid, nvar, nset]` and the scratch holds
/// `3 * ngrid * nocc` values.
pub fn plan_make_rho_from_one_bra_mult_ket(
    ao_shape: &[usize],
    bra_shape: &[usize],
    ket_shapes: &[Vec<usize>],
    den_type: NIDenType,
) -> (r: Result<RhoPlan, NIError>)
    requires
        ao_shape@.len() >= 2,
        first_failure(
            driver_bra_check(bra_shape@, ao_shape@[1]),
            each_index(ket_shapes@.len(), ket_item(shape_views(ket_shapes@), ao_shape@[1], bra_shape@[1], "Each ket must be 2D"@, false)),
        ) is None ==> 3 * ao_shape@[0] * bra_shape@[1] <= usize::MAX,
    ensures
        r is Ok <==> first_failure(
            driver_bra_check(bra_shape@, ao_shape@[1]),
            each_index(ket_shapes@.len(), ket_item(shape_views(ket_shapes@), ao_shape@[1], bra_shape@[1], "Each ket must be 2D"@, false)),
        ) is None,
        r matches Err(e) ==> Some(e@) == first_failure(
            driver_bra_check(bra_shape@, ao_shape@[1]),
            each_index(ket_shapes@.len(), ket_item(shape_views(ket_shapes@), ao_shape@[1], bra_shape@[1], "Each ket must be 2D"@, false)),
        ),
        r matches Ok(p) ==> p.out_shape@ == rho_out_shape(ao_shape@[0], den_type, ket_shapes@.len()) && p.buf_len == 3
            * ao_shape@[0] * bra_shape@[1],
{
    let ngrid = ao_shape[0];
    let nao = ao_shape[1];
    let r = check_lead(bra_shape, nao, "Bra must be 2D", "bra.ndim()", "Bra first dimension must match AO dimension", false, "bra.shape()[0]");
    if let Err(e) = r {
        return Err(e);
    }
    let nocc = bra_shape[1];
    let r = check_ket_list(ket_shapes, nao, nocc, "Each ket must be 2D", false);
    if let Err(e) = r {
        return Err(e);
    }
    Ok(RhoPlan { out_shape: dims3(ngrid, den_type.num_nvar(), ket_shapes.len()), buf_len: mul3(3, ngrid, nocc) })
}

/// Once the driver's checks of the bra and kets pass and the cached AO values
/// hold the components the density type reads, the density routine's own checks
/// pass on the planned output and scratch.
pub proof fn law_make_rho_from_one_bra_mult_ket_plan_passes(ao: Seq<usize>, bra: Seq<usize>, kets: Seq<Seq<usize>>, den: NIDenType)
    requires
        ao.len() == 3,
        ao[2] >= ao_components(den),
        driver_bra_check(bra, ao[1]) is None,
        each_index(kets.len(), ket_item(kets, ao[1], bra[1], "Each ket must be 2D"@, false)) is None,
        3 * ao[0] * bra[1] <= usize::MAX,
        kets.len() <= usize::MAX,
    ensures
        rho_from_one_bra_mult_ket_checks(ao, bra, kets, den, rho_out_shape(ao[0], den, kets.len()), (3 * ao[0] * bra[1]) as nat) is None,
{
    let a = ket_item(kets, ao[1], bra[1], "Each ket must be 2D"@, false);
    let b = ket_item(kets, ao[1], bra[1], "Each ket must be 2D"@, true);
    assert forall|i: int| 0 <= i < kets.len() implies #[trigger] b(i) is None by {
        lemma_each_index_none_item(kets.len(), i, a);
    }
    lemma_each_index_all_none(kets.len(), b);
}

/// Plans the density from bra-ket pairs on cached AO values: the pairs (as far
/// as the shorter list reaches) must be `[nao, nocc_i]` each; the output is
/// `[ngrid, nvar, nbra]` and the scratch holds `3 * ngrid * nocc_max` values.
/// The driver reads the second dimension of every bra, so each bra must have
/// two dimensions at least.
pub fn plan_make_rho_from_mult_bra_mult_ket(
    ao_shape: &[usize],
    bra_shapes: &[Vec<usize>],
    ket_shapes: &[Vec<usize>],
    den_type: NIDenType,
) -> (r: Result<RhoPlan, NIError>)
    requires
        ao_shape@.len() >= 2,
        forall|i: int| 0 <= i < bra_shapes@.len() ==> #[trigger] bra_shapes@[i]@.len() >= 2,
        each_index(
            if bra_shapes@.len() <= ket_shapes@.len() { bra_shapes@.len() } else { ket_shapes@.len() },
            pair_item(shape_views(bra_shapes@), shape_views(ket_shapes@), ao_shape@[1], "Each bra must be 2D"@, "Each ket must be 2D"@),
        ) is None ==> 3 * ao_shape@[0] * max_cols(shape_views(bra_shapes@)) <= usize::MAX,
    ensures
        r is Ok <==> each_index(
            if bra_shapes@.len() <= ket_shapes@.len() { bra_shapes@.len() } else { ket_shapes@.len() },
            pair_item(shape_views(bra_shapes@), shape_views(ket_shapes@), ao_shape@[1], "Each bra must be 2D"@, "Each ket must be 2D"@),
        ) is None,
        r matches Err(e) ==> Some(e@) == each_index(
            if bra_shapes@.len() <= ket_shapes@.len() { bra_shapes@.len() } else { ket_shapes@.len() },
            pair_item(shape_views(bra_shapes@), shape_views(ket_shapes@), ao_shape@[1], "Each bra must be 2D"@, "Each ket must be 2D"@),
        ),
        r matches Ok(p) ==> p.out_shape@ == rho_out_shape(ao_shape@[0], den_type, bra_shapes@.len()) && p.buf_len == 3
            * ao_shape@[0] * max_cols(shape_views(bra_shapes@)),
        r matches Ok(p) ==> forall|i: int|
            0 <= i < bra_shapes@.len() ==> p.buf_len >= 3 * ao_shape@[0] * #[trigger] bra_shapes@[i]@[1],
{
    let ngrid = ao_shape[0];
    let nao = ao_shape[1];
    let r = check_pair_list(bra_shapes, ket_shapes, nao, "Each bra must be 2D", "Each ket must be 2D");
    if let Err(e) = r {
        return Err(e);
    }
    proof {
        assert forall|i: int| 0 <= i < bra_shapes@.len() implies #[trigger] shape_views(bra_shapes@)[i].len() >= 2 by {
            assert(shape_views(bra_shapes@)[i] == bra_shapes@[i]@);
        }
    }
    let nocc_max = max_cols_of(bra_shapes);
    proof {
        law_plan_buffer_covers_each_matrix(ngrid as nat, 3, shape_views(bra_shapes@));
        assert forall|i: int| 0 <= i < bra_shapes@.len() implies 3 * ngrid * nocc_max >= 3 * ngrid * #[trigger] bra_shapes@[i]@[1] by {
            assert(shape_views(bra_shapes@)[i] == bra_shapes@[i]@);
        }
    }
    Ok(RhoPlan { out_shape: dims3(ngrid, den_type.num_nvar(), bra_shapes.len()), buf_len: mul3(3, ngrid, nocc_max) })
}

/// Once the driver's pair checks pass, the bra and ket lists have one length
/// and the cached AO values hold the components the density type reads, the
/// density routine's own checks pass on the planned output and scratch; with
/// lists of different lengths the routine refuses them.
pub proof fn law_make_rho_from_mult_bra_mult_ket_plan_passes(
    ao: Seq<usize>,
    bras: Seq<Seq<usize>>,
    kets: Seq<Seq<usize>>,
    den: NIDenType,
)
    requires
        ao.len() == 3,
        ao[2] >= ao_components(den),
        bras.len() <= kets.len() ==> each_index(bras.len(), pair_item(bras, kets, ao[1], "Each bra must be 2D"@, "Each ket must be 2D"@)) is None,
        kets.len() < bras.len() ==> each_index(kets.len(), pair_item(bras, kets, ao[1], "Each bra must be 2D"@, "Each ket must be 2D"@)) is None,
        3 * ao[0] * max_cols(bras) <= usize::MAX,
        bras.len() <= usize::MAX,
        kets.len() <= usize::MAX,
    ensures
        bras.len() == kets.len() ==> rho_from_mult_bra_mult_ket_checks(
            ao,
            bras,
            kets,
            den,
            rho_out_shape(ao[0], den, bras.len()),
            (3 * ao[0] * max_cols(bras)) as nat,
        ) is None,
        bras.len() != kets.len() ==> rho_from_mult_bra_mult_ket_checks(
            ao,
            bras,
            kets,
            den,
            rho_out_shape(ao[0], den, bras.len()),
            (3 * ao[0] * max_cols(bras)) as nat,
        ) is Some,
{
}

/// The shapes that the driver of a density tensor `[nao, nao, ...]` hands on:
/// the density reshaped to `[nao, nao, nset]`, the output `[ngrid, nvar, nset]`,
/// the scratch size `ngrid * nao`, and the final output shape `[ngrid, nvar, ...]`.
pub struct RhoTensorPlan {
    pub dm_shape: Vec<usize>,
    pub out_shape: Vec<usize>,
    pub buf_len: usize,
    pub final_shape: Vec<usize>,
}

/// The product of the dimensions of a shape (`1` for no dimension).
pub open spec fn shape_product(s: Seq<usize>) -> nat
    decreases s.len(),
{
    if s.len() == 0 {
        1
    } else {
        shape_product(s.drop_last()) * (s.last() as nat)
    }
}

/// The driver's checks of a density tensor: at least two dimensions, the first
/// two `[nao, nao]`.
pub open spec fn dm_tensor_checks(dm: Seq<usize>, nao: usize) -> Option<NIErrorView> {
    first_failure(
        cond_check(dm.len() >= 2, "Density matrix must be at least 2D"@, "dm.ndim() >= 2"@),
        eq_check(
            dm.subrange(0, 2),
            seq![nao, nao],
            "Density matrix must be square and match AO dimension"@,
            "dm.shape()[0..2]"@,
            "[nao, nao]"@,
        ),
    )
}

/// Plans the density from one density tensor `[nao, nao, ...]` whose trailing
/// dimensions count the sets.
pub fn plan_make_rho_from_dm_tensor(ao_shape: &[usize], dm_shape: &[usize], den_type: NIDenType) -> (r: Result<RhoTensorPlan, NIError>)
    requires
        ao_shape@.len() >= 2,
        dm_tensor_checks(dm_shape@, ao_shape@[1]) is None ==> ao_shape@[0] * ao_shape@[1] <= usize::MAX,
        dm_tensor_checks(dm_shape@, ao_shape@[1]) is None ==> forall|k: int|
            2 <= k <= dm_shape@.len() ==> #[trigger] shape_product(dm_shape@.subrange(2, k)) <= usize::MAX,
    ensures
        r is Ok <==> dm_tensor_checks(dm_shape@, ao_shape@[1]) is None,
        r matches Err(e) ==> Some(e@) == dm_tensor_checks(dm_shape@, ao_shape@[1]),
        r matches Ok(p) ==> {
            let nset = shape_product(dm_shape@.subrange(2, dm_shape@.len() as int));
            &&& p.dm_shape@ == seq![ao_shape@[1], ao_shape@[1], nset as usize]
            &&& p.out_shape@ == rho_out_shape(ao_shape@[0], den_type, nset)
            &&& p.buf_len == ao_shape@[0] * ao_shape@[1]
            &&& p.final_shape@ == seq![ao_shape@[0], rho_components(den_type) as usize] + dm_shape@.subrange(
                2,
                dm_shape@.len() as int,
            )
        },
{
    let ngrid = ao_shape[0];
    let nao = ao_shape[1];
    let r = ni_check_shape_cond(dm_shape.len() >= 2, "Density matrix must be at least 2D", "dm.ndim() >= 2");
    if let Err(e) = r {
        return Err(e);
    }
    let r = ni_check_shape_eq(
        crate::checks::shape_prefix(dm_shape, 2),
        dims2(nao, nao),
        "Density matrix must be square and match AO dimension",
        "dm.shape()[0..2]",
        "[nao, nao]",
    );
    if let Err(e) = r {
        return Err(e);
    }
    let ghost suffix = dm_shape@.subrange(2, dm_shape@.len() as int);
    let mut nset: usize = 1;
    let mut final_shape = dims2(ngrid, den_type.num_rho_components());
    let mut i: usize = 2;
    while i < dm_shape.len()
        invariant
            2 <= i <= dm_shape@.len(),
            suffix == dm_shape@.subrange(2, dm_shape@.len() as int),
            forall|k: int| 2 <= k <= dm_shape@.len() ==> #[trigger] shape_product(dm_shape@.subrange(2, k)) <= usize::MAX,
            nset == shape_product(dm_shape@.subrange(2, i as int)),
            final_shape@ == seq![ngrid, rho_components(den_type) as usize] + dm_shape@.subrange(2, i as int),
        decreases dm_shape@.len() - i,
    {
        assert(dm_shape@.subrange(2, i as int + 1).drop_last() =~= dm_shape@.subrange(2, i as int));
        assert(shape_product(dm_shape@.subrange(2, i as int + 1)) <= usize::MAX);
        nset = nset * dm_shape[i];
        final_shape.push(dm_shape[i]);
        assert(final_shape@ =~= seq![ngrid, rho_components(den_type) as usize] + dm_shape@.subrange(2, i as int + 1));
        i = i + 1;
    }
    assert(dm_shape@.subrange(2, i as int) =~= suffix);
    Ok(RhoTensorPlan {
        dm_shape: dims3(nao, nao, nset),
        out_shape: dims3(ngrid, den_type.num_nvar(), nset),
        buf_len: ngrid * nao,
        final_shape,
    })
}

/// The output shape and scratch size of a potential routine.
pub struct PotPlan {
    pub out_shape: Vec<usize>,
    pub buf_len: usize,
}

/// Plans the first-order potential: `[nao, nao]` without spin, `[nao, nao, 2]`
/// with spin, and a scratch of `ngrids * nao` values.
pub fn plan_make_vxc_pot_with_eff(nao: usize, ngrids: usize, spin: usize) -> (p: PotPlan)
    requires
        ngrids * nao <= usize::MAX,
    ensures
        p.out_shape@ == (if spin == 0 { seq![nao, nao] } else { seq![nao, nao, 2] }),
        p.buf_len == ngrids * nao,
{
    if spin == 0 {
        PotPlan { out_shape: dims2(nao, nao), buf_len: ngrids * nao }
    } else {
        PotPlan { out_shape: dims3(nao, nao, 2), buf_len: ngrids * nao }
    }
}

/// Plans the second-order potential: `[nao, nao, nset]` without spin, with
/// `nset` the third dimension of `rho1`; `[nao, nao, 2, nset]` with spin, with
/// `nset` the fourth.
pub fn plan_make_fxc_pot_with_eff(nao: usize, ngrids: usize, rho1_shape: &[usize], spin: usize) -> (p: PotPlan)
    requires
        ngrids * nao <= usize::MAX,
        spin == 0 ==> rho1_shape@.len() > 2,
        spin != 0 ==> rho1_shape@.len() > 3,
    ensures
        p.out_shape@ == (if spin == 0 { seq![nao, nao, rho1_shape@[2]] } else { seq![nao, nao, 2, rho1_shape@[3]] }),
        p.buf_len == ngrids * nao,
{
    if spin == 0 {
        PotPlan { out_shape: dims3(nao, nao, rho1_shape[2]), buf_len: ngrids * nao }
    } else {
        PotPlan { out_shape: dims4(nao, nao, 2, rho1_shape[3]), buf_len: ngrids * nao }
    }
}

/// Plans the third-order potential: `[nao, nao, nset1, nset2]` without spin,
/// `[nao, nao, 2, nset1, nset2]` with spin, the set counts read from `rho1` and
/// `rho2` as for the second order.
pub fn plan_make_kxc_pot_with_eff(nao: usize, ngrids: usize, rho1_shape: &[usize], rho2_shape: &[usize], spin: usize) -> (p: PotPlan)
    requires
        ngrids * nao <= usize::MAX,
        spin == 0 ==> rho1_shape@.len() > 2 && rho2_shape@.len() > 2,
        spin != 0 ==> rho1_shape@.len() > 3 && rho2_shape@.len() > 3,
    ensures
        p.out_shape@ == (if spin == 0 {
            seq![nao, nao, rho1_shape@[2], rho2_shape@[2]]
        } else {
            seq![nao, nao, 2, rho1_shape@[3], rho2_shape@[3]]
        }),
        p.buf_len == ngrids * nao,
{
    if spin == 0 {
        PotPlan { out_shape: dims4(nao, nao, rho1_shape[2], rho2_shape[2]), buf_len: ngrids * nao }
    } else {
        PotPlan { out_shape: dims5(nao, nao, 2, rho1_shape[3], rho2_shape[3]), buf_len: ngrids * nao }
    }
}

/// The dimensions `(ngrid, nao, nset)` of the plain density evaluation from a
/// density `[nao, nao, nset]` on AO values `[ngrid, nao, ncomp]`, which computes
/// the density alone (derivative order `0`) and needs the AO value component.
pub fn get_rho_from_dm_dims(ao_shape: &[usize], dm_shape: &[usize], deriv: usize) -> (r: (usize, usize, usize))
    requires
        dm_shape@.len() == 3,
        ao_shape@.len() == 3,
        dm_shape@[0] == dm_shape@[1],
        ao_shape@[1] == dm_shape@[0],
        deriv == 0,
        ao_shape@[2] >= 1,
    ensures
        r == (ao_shape@[0], dm_shape@[0], dm_shape@[2]),
{
    (ao_shape[0], dm_shape[0], dm_shape[2])
}

} // verus!
