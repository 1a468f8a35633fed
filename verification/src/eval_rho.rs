//! Shape checks of the density evaluation: the checks that each density routine
//! makes before it computes, in the order it makes them.
use vstd::prelude::*;
use crate::checks::{check_dim, check_ndim, dim_check, dims3, each_index, len_at_least, len_at_least3, ndim_check, shape_views};
use crate::error::{checked, cond_check, eq_check, first_failure, ni_check_shape_cond, ni_check_shape_eq, res_view, NIError, NIErrorView};
use crate::flags::{ao_components, rho_components, NIDenType};
use crate::lists::{check_dm_list, check_ket_list, check_lead, check_lead_list, check_pair_list, dm_item, ket_item, lead_check, lead_item, max_cols, max_cols_of, pair_item};

verus! {

/// The AO tensor must have three dimensions `[ngrids, nao, ncomp]`.
pub open spec fn ao_ndim_check(ao: Seq<usize>, msg: Seq<char>) -> Option<NIErrorView> {
    ndim_check(ao, 3, msg, "ao.ndim()"@, "3"@)
}

/// The output must have the shape `[ngrids, nvar, nset]`, with the name that
/// the routine gives to the grid count.
pub open spec fn rho_out_check(out: Seq<usize>, ngrids: usize, den: NIDenType, nset: nat, expected_src: Seq<char>) -> Option<NIErrorView> {
    eq_check(out, seq![ngrids, rho_components(den) as usize, nset as usize], "Output shape mismatch"@, "out.shape().clone()"@, expected_src)
}

/// The AO tensor must hold the components that the density type reads.
pub open spec fn ao_comp_check(ao: Seq<usize>, den: NIDenType) -> Option<NIErrorView> {
    cond_check(
        ao[2] >= ao_components(den),
        "AO component dimension insufficient"@,
        "ao.shape()[2] >= den_type.num_ao_comp()"@,
    )
}

/// The scratch buffer must hold `need` values.
pub open spec fn buf_check(buf_len: nat, need: int, cond_src: Seq<char>) -> Option<NIErrorView> {
    cond_check(buf_len >= need, "Buffer length insufficient"@, cond_src)
}

/// Checks of the density evaluation from density matrices.
pub open spec fn rho_from_dm_checks(
    ao: Seq<usize>,
    dms: Seq<Seq<usize>>,
    den: NIDenType,
    out: Seq<usize>,
    buf_len: nat,
) -> Option<NIErrorView> {
    first_failure(
        ao_ndim_check(ao, "AO values must be 3D"@),
        first_failure(
            each_index(dms.len(), dm_item(dms, ao[1], "Each density matrix must be 2D"@)),
            first_failure(
                rho_out_check(out, ao[0], den, dms.len(), "[ngrids, den_type.num_nvar(), nset]"@),
                first_failure(
                    buf_check(buf_len, ao[0] * ao[1], "buf.len() >= ngrids * nao"@),
                    ao_comp_check(ao, den),
                ),
            ),
        ),
    )
}

/// Checks of the naive density evaluation from density matrices.
pub open spec fn rho_from_dm_naive_checks(
    ao: Seq<usize>,
    dms: Seq<Seq<usize>>,
    den: NIDenType,
    out: Seq<usize>,
) -> Option<NIErrorView> {
    first_failure(
        ao_ndim_check(ao, "AO values must be 3-dim"@),
        first_failure(
            each_index(dms.len(), dm_item(dms, ao[1], "Each density matrix must be 2-dim"@)),
            first_failure(
                rho_out_check(out, ao[0], den, dms.len(), "[ngrids, den_type.num_nvar(), nset]"@),
                ao_comp_check(ao, den),
            ),
        ),
    )
}

/// Each bra of a list with equal bra and ket must have `nao` rows.
pub open spec fn homogeneous_bra_item(bras: Seq<Seq<usize>>, nao: usize, ndim_msg: Seq<char>) -> spec_fn(int) -> Option<NIErrorView> {
    lead_item(bras, nao, ndim_msg, "bra.ndim()"@, "AO dimension must match braket dimension"@, true, "bra.shape()[0]"@)
}

/// Checks of the density evaluation from bras equal to their kets.
pub open spec fn rho_from_homogeneous_braket_checks(
    ao: Seq<usize>,
    bras: Seq<Seq<usize>>,
    den: NIDenType,
    out: Seq<usize>,
    buf_len: nat,
) -> Option<NIErrorView> {
    first_failure(
        ao_ndim_check(ao, "AO values must be 3D"@),
        first_failure(
            each_index(bras.len(), homogeneous_bra_item(bras, ao[1], "Each bra must be 2D"@)),
            first_failure(
                rho_out_check(out, ao[0], den, bras.len(), "[ngrid, den_type.num_nvar(), nset]"@),
                first_failure(
                    buf_check(buf_len, 2 * ao[0] * max_cols(bras), "buf.len() >= 2 * ngrid * nocc_max"@),
                    ao_comp_check(ao, den),
                ),
            ),
        ),
    )
}

/// Checks of the naive density evaluation from bras equal to their kets.
pub open spec fn rho_from_homogeneous_braket_naive_checks(
    ao: Seq<usize>,
    bras: Seq<Seq<usize>>,
    den: NIDenType,
    out: Seq<usize>,
) -> Option<NIErrorView> {
    first_failure(
        ao_ndim_check(ao, "AO values must be 3-dim"@),
        first_failure(
            each_index(bras.len(), homogeneous_bra_item(bras, ao[1], "Each bra must be 2-dim"@)),
            first_failure(
                rho_out_check(out, ao[0], den, bras.len(), "[ngrids, den_type.num_nvar(), nset]"@),
                ao_comp_check(ao, den),
            ),
        ),
    )
}

/// The shared bra of the one-bra, many-ket evaluation.
pub open spec fn shared_bra_check(bra: Seq<usize>, nao: usize, ndim_msg: Seq<char>) -> Option<NIErrorView> {
    lead_check(bra, nao, ndim_msg, "bra.ndim()"@, "Bra first dimension must match AO dimension"@, true, "bra.shape()[0]"@)
}

/// Checks of the density evaluation from one bra and many kets.
pub open spec fn rho_from_one_bra_mult_ket_checks(
    ao: Seq<usize>,
    bra: Seq<usize>,
    kets: Seq<Seq<usize>>,
    den: NIDenType,
    out: Seq<usize>,
    buf_len: nat,
) -> Option<NIErrorView> {
    first_failure(
        ao_ndim_check(ao, "AO values must be 3D"@),
        first_failure(
            shared_bra_check(bra, ao[1], "Bra must be 2D"@),
            first_failure(
                each_index(kets.len(), ket_item(kets, ao[1], bra[1], "Each ket must be 2D"@, true)),
                first_failure(
                    rho_out_check(out, ao[0], den, kets.len(), "[ngrid, den_type.num_nvar(), nset]"@),
                    first_failure(
                        buf_check(buf_len, 3 * ao[0] * bra[1], "buf.len() >= 3 * ngrid * nocc"@),
                        ao_comp_check(ao, den),
                    ),
                ),
            ),
        ),
    )
}

/// Checks of the naive density evaluation from one bra and many kets.
pub open spec fn rho_from_one_bra_mult_ket_naive_checks(
    ao: Seq<usize>,
    bra: Seq<usize>,
    kets: Seq<Seq<usize>>,
    den: NIDenType,
    out: Seq<usize>,
) -> Option<NIErrorView> {
    first_failure(
        ao_ndim_check(ao, "AO values must be 3-dim"@),
        first_failure(
            shared_bra_check(bra, ao[1], "Bra must be 2-dim"@),
            first_failure(
                each_index(kets.len(), ket_item(kets, ao[1], bra[1], "Each ket must be 2-dim"@, true)),
                first_failure(
                    rho_out_check(out, ao[0], den, kets.len(), "[ngrids, den_type.num_nvar(), nset]"@),
                    ao_comp_check(ao, den),
                ),
            ),
        ),
    )
}

/// The bra and ket lists must have the same length.
pub open spec fn list_len_check(nbra: nat, nket: nat) -> Option<NIErrorView> {
    dim_check(
        nbra as usize,
        nket as usize,
        "bra_list and ket_list must have same length"@,
        "bra_list.len()"@,
        "ket_list.len()"@,
    )
}

/// Checks of the density evaluation from many bra-ket pairs.
pub open spec fn rho_from_mult_bra_mult_ket_checks(
    ao: Seq<usize>,
    bras: Seq<Seq<usize>>,
    kets: Seq<Seq<usize>>,
    den: NIDenType,
    out: Seq<usize>,
    buf_len: nat,
) -> Option<NIErrorView> {
    first_failure(
        ao_ndim_check(ao, "AO values must be 3D"@),
        first_failure(
            list_len_check(bras.len(), kets.len()),
            first_failure(
                each_index(bras.len(), pair_item(bras, kets, ao[1], "Each bra must be 2D"@, "Each ket must be 2D"@)),
                first_failure(
                    rho_out_check(out, ao[0], den, bras.len(), "[ngrid, den_type.num_nvar(), nset]"@),
                    first_failure(
                        buf_check(buf_len, 3 * ao[0] * max_cols(bras), "buf.len() >= 3 * ngrid * nocc_max"@),
                        ao_comp_check(ao, den),
                    ),
                ),
            ),
        ),
    )
}

/// Checks of the naive density evaluation from many bra-ket pairs.
pub open spec fn rho_from_mult_bra_mult_ket_naive_checks(
    ao: Seq<usize>,
    bras: Seq<Seq<usize>>,
    kets: Seq<Seq<usize>>,
    den: NIDenType,
    out: Seq<usize>,
) -> Option<NIErrorView> {
    first_failure(
        ao_ndim_check(ao, "AO values must be 3-dim"@),
        first_failure(
            list_len_check(bras.len(), kets.len()),
            first_failure(
                each_index(bras.len(), pair_item(bras, kets, ao[1], "Each bra must be 2-dim"@, "Each ket must be 2-dim"@)),
                first_failure(
                    rho_out_check(out, ao[0], den, bras.len(), "[ngrids, den_type.num_nvar(), nset]"@),
                    ao_comp_check(ao, den),
                ),
            ),
        ),
    )
}

fn check_ao_ndim(ao_shape: &[usize], msg: &str) -> (r: Result<(), NIError>)
    ensures
        res_view(r) == checked(ao_ndim_check(ao_shape@, msg@)),
{
    check_ndim(ao_shape, 3, msg, "ao.ndim()", "3")
}

fn check_rho_out(out_shape: &[usize], ngrids: usize, den_type: NIDenType, nset: usize, expected_src: &str) -> (r: Result<
    (),
    NIError,
>)
    ensures
        res_view(r) == checked(rho_out_check(out_shape@, ngrids, den_type, nset as nat, expected_src@)),
{
    ni_check_shape_eq(
        crate::checks::shape_vec(out_shape),
        dims3(ngrids, den_type.num_nvar(), nset),
        "Output shape mismatch",
        "out.shape().clone()",
        expected_src,
    )
}

fn check_ao_comp(ao_shape: &[usize], den_type: NIDenType) -> (r: Result<(), NIError>)
    requires
        ao_shape@.len() == 3,
    ensures
        res_view(r) == checked(ao_comp_check(ao_shape@, den_type)),
{
    ni_check_shape_cond(
        ao_shape[2] >= den_type.num_ao_comp(),
        "AO component dimension insufficient",
        "ao.shape()[2] >= den_type.num_ao_comp()",
    )
}

/// Checks the shapes handed to the density evaluation from density matrices:
/// `ao` is `[ngrids, nao, ncomp]`, each density matrix `[nao, nao]`, `out`
/// `[ngrids, nvar, nset]`, the buffer holds `ngrids * nao` values and `ao` the
/// components that `den_type` reads. The first failed check is the error.
pub fn check_rho_from_dm_with_output(
    ao_shape: &[usize],
    dm_shapes: &[Vec<usize>],
    den_type: NIDenType,
    out_shape: &[usize],
    buf_len: usize,
) -> (r: Result<(), NIError>)
    ensures
        res_view(r) == checked(
            rho_from_dm_checks(ao_shape@, shape_views(dm_shapes@), den_type, out_shape@, buf_len as nat),
        ),
{
    let r = check_ao_ndim(ao_shape, "AO values must be 3D");
    if r.is_err() {
        return r;
    }
    let nao = ao_shape[1];
    let ngrids = ao_shape[0];
    let r = check_dm_list(dm_shapes, nao, "Each density matrix must be 2D");
    if r.is_err() {
        return r;
    }
    let r = check_rho_out(out_shape, ngrids, den_type, dm_shapes.len(), "[ngrids, den_type.num_nvar(), nset]");
    if r.is_err() {
        return r;
    }
    let r = ni_check_shape_cond(len_at_least(buf_len, ngrids, nao), "Buffer length insufficient", "buf.len() >= ngrids * nao");
    if r.is_err() {
        return r;
    }
    check_ao_comp(ao_shape, den_type)
}

/// Checks the shapes handed to the naive density evaluation from density
/// matrices: as [`check_rho_from_dm_with_output`], without a buffer.
pub fn check_rho_from_dm_with_output_naive(
    ao_shape: &[usize],
    dm_shapes: &[Vec<usize>],
    den_type: NIDenType,
    out_shape: &[usize],
) -> (r: Result<(), NIError>)
    ensures
        res_view(r) == checked(rho_from_dm_naive_checks(ao_shape@, shape_views(dm_shapes@), den_type, out_shape@)),
{
    let r = check_ao_ndim(ao_shape, "AO values must be 3-dim");
    if r.is_err() {
        return r;
    }
    let r = check_dm_list(dm_shapes, ao_shape[1], "Each density matrix must be 2-dim");
    if r.is_err() {
        return r;
    }
    let r = check_rho_out(out_shape, ao_shape[0], den_type, dm_shapes.len(), "[ngrids, den_type.num_nvar(), nset]");
    if r.is_err() {
        return r;
    }
    check_ao_comp(ao_shape, den_type)
}

/// Checks the shapes handed to the density evaluation from bras equal to their
/// kets: each bra `[nao, nocc_i]`, `out` `[ngrid, nvar, nset]`, the buffer
/// `2 * ngrid * nocc_max` values, with `nocc_max` the largest `nocc_i` (`0`
/// without bras).
pub fn check_rho_from_homogeneous_braket_with_output(
    ao_shape: &[usize],
    bra_shapes: &[Vec<usize>],
    den_type: NIDenType,
    out_shape: &[usize],
    buf_len: usize,
) -> (r: Result<(), NIError>)
    ensures
        res_view(r) == checked(
            rho_from_homogeneous_braket_checks(ao_shape@, shape_views(bra_shapes@), den_type, out_shape@, buf_len as nat),
        ),
{
    let r = check_ao_ndim(ao_shape, "AO values must be 3D");
    if r.is_err() {
        return r;
    }
    let nao = ao_shape[1];
    let ngrid = ao_shape[0];
    let r = check_lead_list(
        bra_shapes,
        nao,
        "Each bra must be 2D",
        "bra.ndim()",
        "AO dimension must match braket dimension",
        true,
        "bra.shape()[0]",
    );
    if r.is_err() {
        return r;
    }
    proof {
        crate::lists::lemma_lead_list_ok(shape_views(bra_shapes@), nao, "Each bra must be 2D"@, "bra.ndim()"@,
            "AO dimension must match braket dimension"@, true, "bra.shape()[0]"@);
    }
    let nocc_max = max_cols_of(bra_shapes);
    let r = check_rho_out(out_shape, ngrid, den_type, bra_shapes.len(), "[ngrid, den_type.num_nvar(), nset]");
    if r.is_err() {
        return r;
    }
    let r = ni_check_shape_cond(
        len_at_least3(buf_len, 2, ngrid, nocc_max),
        "Buffer length insufficient",
        "buf.len() >= 2 * ngrid * nocc_max",
    );
    if r.is_err() {
        return r;
    }
    check_ao_comp(ao_shape, den_type)
}

/// Checks the shapes handed to the naive density evaluation from bras equal to
/// their kets: as [`check_rho_from_homogeneous_braket_with_output`], without a
/// buffer.
pub fn check_rho_from_homogeneous_braket_with_output_naive(
    ao_shape: &[usize],
    bra_shapes: &[Vec<usize>],
    den_type: NIDenType,
    out_shape: &[usize],
) -> (r: Result<(), NIError>)
    ensures
        res_view(r) == checked(
            rho_from_homogeneous_braket_naive_checks(ao_shape@, shape_views(bra_shapes@), den_type, out_shape@),
        ),
{
    let r = check_ao_ndim(ao_shape, "AO values must be 3-dim");
    if r.is_err() {
        return r;
    }
    let r = check_lead_list(
        bra_shapes,
        ao_shape[1],
        "Each bra must be 2-dim",
        "bra.ndim()",
        "AO dimension must match braket dimension",
        true,
        "bra.shape()[0]",
    );
    if r.is_err() {
        return r;
    }
    let r = check_rho_out(out_shape, ao_shape[0], den_type, bra_shapes.len(), "[ngrids, den_type.num_nvar(), nset]");
    if r.is_err() {
        return r;
    }
    check_ao_comp(ao_shape, den_type)
}

/// Checks the shapes handed to the density evaluation from one bra `[nao, nocc]`
/// and kets of the same shape: `out` `[ngrid, nvar, nset]` and a buffer of
/// `3 * ngrid * nocc` values.
pub fn check_rho_from_one_bra_mult_ket_with_output(
    ao_shape: &[usize],
    bra_shape: &[usize],
    ket_shapes: &[Vec<usize>],
    den_type: NIDenType,
    out_shape: &[usize],
    buf_len: usize,
) -> (r: Result<(), NIError>)
    ensures
        res_view(r) == checked(
            rho_from_one_bra_mult_ket_checks(ao_shape@, bra_shape@, shape_views(ket_shapes@), den_type, out_shape@, buf_len as nat),
        ),
{
    let r = check_ao_ndim(ao_shape, "AO values must be 3D");
    if r.is_err() {
        return r;
    }
    let nao = ao_shape[1];
    let ngrid = ao_shape[0];
    let r = check_lead(bra_shape, nao, "Bra must be 2D", "bra.ndim()", "Bra first dimension must match AO dimension", true, "bra.shape()[0]");
    if r.is_err() {
        return r;
    }
    let nocc = bra_shape[1];
    let r = check_ket_list(ket_shapes, nao, nocc, "Each ket must be 2D", true);
    if r.is_err() {
        return r;
    }
    let r = check_rho_out(out_shape, ngrid, den_type, ket_shapes.len(), "[ngrid, den_type.num_nvar(), nset]");
    if r.is_err() {
        return r;
    }
    let r = ni_check_shape_cond(
        len_at_least3(buf_len, 3, ngrid, nocc),
        "Buffer length insufficient",
        "buf.len() >= 3 * ngrid * nocc",
    );
    if r.is_err() {
        return r;
    }
    check_ao_comp(ao_shape, den_type)
}

/// Checks the shapes handed to the naive density evaluation from one bra and
/// many kets: as [`check_rho_from_one_bra_mult_ket_with_output`], without a
/// buffer.
pub fn check_rho_from_one_bra_mult_ket_with_output_naive(
    ao_shape: &[usize],
    bra_shape: &[usize],
    ket_shapes: &[Vec<usize>],
    den_type: NIDenType,
    out_shape: &[usize],
) -> (r: Result<(), NIError>)
    ensures
        res_view(r) == checked(
            rho_from_one_bra_mult_ket_naive_checks(ao_shape@, bra_shape@, shape_views(ket_shapes@), den_type, out_shape@),
        ),
{
    let r = check_ao_ndim(ao_shape, "AO values must be 3-dim");
    if r.is_err() {
        return r;
    }
    let nao = ao_shape[1];
    let r = check_lead(bra_shape, nao, "Bra must be 2-dim", "bra.ndim()", "Bra first dimension must match AO dimension", true, "bra.shape()[0]");
    if r.is_err() {
        return r;
    }
    let r = check_ket_list(ket_shapes, nao, bra_shape[1], "Each ket must be 2-dim", true);
    if r.is_err() {
        return r;
    }
    let r = check_rho_out(out_shape, ao_shape[0], den_type, ket_shapes.len(), "[ngrids, den_type.num_nvar(), nset]");
    if r.is_err() {
        return r;
    }
    check_ao_comp(ao_shape, den_type)
}

/// Checks the shapes handed to the density evaluation from many bra-ket pairs:
/// as many bras as kets, each pair `[nao, nocc_i]`, `out` `[ngrid, nvar, nset]`
/// and a buffer of `3 * ngrid * nocc_max` values.
///
/// The routine reads the second dimension of every bra before it checks the
/// pairs, so every bra must have at least two dimensions once the AO tensor and
/// the list lengths have passed.
pub fn check_rho_from_mult_bra_mult_ket_with_output(
    ao_shape: &[usize],
    bra_shapes: &[Vec<usize>],
    ket_shapes: &[Vec<usize>],
    den_type: NIDenType,
    out_shape: &[usize],
    buf_len: usize,
) -> (r: Result<(), NIError>)
    requires
        ao_shape@.len() == 3 && bra_shapes@.len() == ket_shapes@.len() ==> forall|i: int|
            0 <= i < bra_shapes@.len() ==> #[trigger] bra_shapes@[i]@.len() >= 2,
    ensures
        res_view(r) == checked(
            rho_from_mult_bra_mult_ket_checks(
                ao_shape@,
                shape_views(bra_shapes@),
                shape_views(ket_shapes@),
                den_type,
                out_shape@,
                buf_len as nat,
            ),
        ),
{
    let r = check_ao_ndim(ao_shape, "AO values must be 3D");
    if r.is_err() {
        return r;
    }
    let nao = ao_shape[1];
    let ngrid = ao_shape[0];
    let r = check_dim(bra_shapes.len(), ket_shapes.len(), "bra_list and ket_list must have same length", "bra_list.len()", "ket_list.len()");
    if r.is_err() {
        return r;
    }
    proof {
        assert forall|i: int| 0 <= i < bra_shapes@.len() implies #[trigger] shape_views(bra_shapes@)[i].len() >= 2 by {
            assert(shape_views(bra_shapes@)[i] == bra_shapes@[i]@);
        }
    }
    let nocc_max = max_cols_of(bra_shapes);
    let r = check_pair_list(bra_shapes, ket_shapes, nao, "Each bra must be 2D", "Each ket must be 2D");
    if r.is_err() {
        return r;
    }
    let r = check_rho_out(out_shape, ngrid, den_type, bra_shapes.len(), "[ngrid, den_type.num_nvar(), nset]");
    if r.is_err() {
        return r;
    }
    let r = ni_check_shape_cond(
        len_at_least3(buf_len, 3, ngrid, nocc_max),
        "Buffer length insufficient",
        "buf.len() >= 3 * ngrid * nocc_max",
    );
    if r.is_err() {
        return r;
    }
    check_ao_comp(ao_shape, den_type)
}

/// Checks the shapes handed to the naive density evaluation from many bra-ket
/// pairs: as [`check_rho_from_mult_bra_mult_ket_with_output`], without a buffer.
pub fn check_rho_from_mult_bra_mult_ket_with_output_naive(
    ao_shape: &[usize],
    bra_shapes: &[Vec<usize>],
    ket_shapes: &[Vec<usize>],
    den_type: NIDenType,
    out_shape: &[usize],
) -> (r: Result<(), NIError>)
    ensures
        res_view(r) == checked(
            rho_from_mult_bra_mult_ket_naive_checks(ao_shape@, shape_views(bra_shapes@), shape_views(ket_shapes@), den_type, out_shape@),
        ),
{
    let r = check_ao_ndim(ao_shape, "AO values must be 3-dim");
    if r.is_err() {
        return r;
    }
    let r = check_dim(bra_shapes.len(), ket_shapes.len(), "bra_list and ket_list must have same length", "bra_list.len()", "ket_list.len()");
    if r.is_err() {
        return r;
    }
    let r = check_pair_list(bra_shapes, ket_shapes, ao_shape[1], "Each bra must be 2-dim", "Each ket must be 2-dim");
    if r.is_err() {
        return r;
    }
    let r = check_rho_out(out_shape, ao_shape[0], den_type, bra_shapes.len(), "[ngrids, den_type.num_nvar(), nset]");
    if r.is_err() {
        return r;
    }
    check_ao_comp(ao_shape, den_type)
}

} // verus!
