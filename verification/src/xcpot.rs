//! Shape checks of the XC potential routines: the checks that each routine
//! makes before it contracts the AO values, in the order it makes them.
use vstd::prelude::*;
use crate::checks::{check_dim, check_ndim, dim_check, dims2, dims3, dims4, dims5, len_at_least, ndim_check, shape_prefix, shape_vec};
use crate::error::{checked, cond_check, eq_check, first_failure, message_error, ni_check_shape_cond, ni_check_shape_eq, ni_error, res_view, NIError, NIErrorView};
use crate::flags::{ao_components, rho_components, NIDenType};
use crate::xc::{xc_eff_shape_spec, XcSpin};

verus! {

/// The density variables of the input must be those of the density type.
pub open spec fn nvar_check(den: NIDenType, nvar: usize) -> Option<NIErrorView> {
    dim_check(
        rho_components(den) as usize,
        nvar,
        "Dimension mismatch for input density type"@,
        "den_type.num_nvar()"@,
        "nvar"@,
    )
}

/// The AO tensor must be `[ngrids, nao, ncomp]` with the components the
/// density type reads.
pub open spec fn ao_tensor_checks(ao: Seq<usize>, ngrids: usize, den: NIDenType) -> Option<NIErrorView> {
    first_failure(
        ndim_check(ao, 3, "AO tensor must be 3-dim"@, "ao.ndim()"@, "3"@),
        first_failure(
            dim_check(ao[0], ngrids, "AO grids dimension mismatch"@, "ao.shape()[0]"@, "ngrids"@),
            cond_check(
                ao[2] >= ao_components(den),
                "AO component dimension insufficient"@,
                "ao.shape()[2] >= den_type.num_ao_comp()"@,
            ),
        ),
    )
}

/// The grid weights must be `[ngrids]`.
pub open spec fn weights_check(w: Seq<usize>, ngrids: usize) -> Option<NIErrorView> {
    eq_check(w, seq![ngrids], "Weights shape mismatch"@, "weights.shape()"@, "[ngrids]"@)
}

/// The output must have the expected shape.
pub open spec fn out_check(out: Seq<usize>, expected: Seq<usize>, out_src: Seq<char>, expected_src: Seq<char>) -> Option<NIErrorView> {
    eq_check(out, expected, "Output shape mismatch"@, out_src, expected_src)
}

/// The message with which the potential routines refuse the Laplacian type.
pub open spec fn lapl_unsupported_msg() -> Seq<char> {
    "Contracting AO with LAPL density type is not supported"@
}

/// The potential routines do not contract the Laplacian type.
pub open spec fn lapl_check(den: NIDenType) -> Option<NIErrorView> {
    if den == NIDenType::LAPL {
        Some(message_error(lapl_unsupported_msg()))
    } else {
        None
    }
}

/// The scratch buffer must hold `ngrids * nao` values.
pub open spec fn pot_buf_check(buf_len: nat, ngrids: usize, nao: usize) -> Option<NIErrorView> {
    cond_check(buf_len >= ngrids * nao, "Buffer length insufficient"@, "buf.len() >= ngrids * nao"@)
}

/// Checks of the contraction of AO values with a weight vector `[ngrids, nvar]`
/// into `[nao, nao]`; with `buf` the buffer must hold `ngrids * nao` values.
pub open spec fn contraction_checks(
    den: NIDenType,
    wv: Seq<usize>,
    ao: Seq<usize>,
    out: Seq<usize>,
    buf: Option<nat>,
) -> Option<NIErrorView> {
    first_failure(
        ndim_check(wv, 2, "Weight vector must be 2-dim"@, "wv.ndim()"@, "2"@),
        first_failure(
            nvar_check(den, wv[1]),
            first_failure(
                ao_tensor_checks(ao, wv[0], den),
                first_failure(
                    out_check(out, seq![ao[1], ao[1]], "out.shape()"@, "[nao, nao]"@),
                    first_failure(
                        match buf {
                            Some(n) => pot_buf_check(n, wv[0], ao[1]),
                            None => None,
                        },
                        lapl_check(den),
                    ),
                ),
            ),
        ),
    )
}

/// Checks of the bra-transformed contraction into `[nao, nocc]`.
pub open spec fn contraction_bra_checks(
    den: NIDenType,
    wv: Seq<usize>,
    ao: Seq<usize>,
    ao_bra: Seq<usize>,
    out: Seq<usize>,
) -> Option<NIErrorView> {
    first_failure(
        ndim_check(wv, 2, "Weight vector must be 2-dim"@, "wv.ndim()"@, "2"@),
        first_failure(
            nvar_check(den, wv[1]),
            first_failure(
                ao_tensor_checks(ao, wv[0], den),
                first_failure(
                    ndim_check(ao_bra, 3, "ao_bra tensor must be 3-dim"@, "ao_bra.ndim()"@, "3"@),
                    first_failure(
                        dim_check(ao_bra[0], wv[0], "ao_bra grids dimension mismatch"@, "ao_bra.shape()[0]"@, "ngrids"@),
                        first_failure(
                            cond_check(
                                ao_bra[2] >= ao_components(den),
                                "ao_bra component dimension insufficient"@,
                                "ao_bra.shape()[2] >= den_type.num_ao_comp()"@,
                            ),
                            first_failure(
                                out_check(out, seq![ao[1], ao_bra[1]], "out.shape()"@, "[nao, nocc]"@),
                                lapl_check(den),
                            ),
                        ),
                    ),
                ),
            ),
        ),
    )
}

/// Checks of the RKS first-order potential: `vxc_eff` `[ngrids, nvar]`, the
/// weights `[ngrids]`, `vxc` `[nao, nao]`; with `buf` a buffer of `ngrids * nao`.
pub open spec fn rks_vxc_checks(
    den: NIDenType,
    vxc_eff: Seq<usize>,
    ao: Seq<usize>,
    weights: Seq<usize>,
    vxc: Seq<usize>,
    buf: Option<nat>,
) -> Option<NIErrorView> {
    first_failure(
        ndim_check(vxc_eff, 2, "Effective potential must be 2-dim"@, "vxc_eff.ndim()"@, "2"@),
        first_failure(
            weights_check(weights, vxc_eff[0]),
            first_failure(
                nvar_check(den, vxc_eff[1]),
                first_failure(
                    ao_tensor_checks(ao, vxc_eff[0], den),
                    first_failure(
                        out_check(vxc, seq![ao[1], ao[1]], "vxc.shape()"@, "[nao, nao]"@),
                        first_failure(
                            match buf {
                                Some(n) => pot_buf_check(n, vxc_eff[0], ao[1]),
                                None => None,
                            },
                            lapl_check(den),
                        ),
                    ),
                ),
            ),
        ),
    )
}

/// Checks shared by the RKS second-order potentials: `rho1` `[ngrids, nvar, nset]`,
/// `fxc_eff` `[ngrids, nvar, nvar]`, the weights and the AO tensor.
pub open spec fn rks_fxc_input_checks(
    den: NIDenType,
    fxc_eff: Seq<usize>,
    rho1: Seq<usize>,
    ao: Seq<usize>,
    weights: Seq<usize>,
) -> Option<NIErrorView> {
    first_failure(
        ndim_check(rho1, 3, "rho1 tensor must be 3-dim"@, "rho1.ndim()"@, "3"@),
        first_failure(
            eq_check(fxc_eff, seq![rho1[0], rho1[1], rho1[1]], "fxc_eff shape mismatch"@, "fxc_eff.shape()"@, "[ngrids, nvar, nvar]"@),
            first_failure(
                weights_check(weights, rho1[0]),
                first_failure(nvar_check(den, rho1[1]), ao_tensor_checks(ao, rho1[0], den)),
            ),
        ),
    )
}

/// Checks of the RKS second-order potential into `fxc` `[nao, nao, nset]`;
/// with `buf` a buffer of `ngrids * nao`.
pub open spec fn rks_fxc_checks(
    den: NIDenType,
    fxc_eff: Seq<usize>,
    rho1: Seq<usize>,
    ao: Seq<usize>,
    weights: Seq<usize>,
    fxc: Seq<usize>,
    buf: Option<nat>,
) -> Option<NIErrorView> {
    first_failure(
        rks_fxc_input_checks(den, fxc_eff, rho1, ao, weights),
        first_failure(
            out_check(fxc, seq![ao[1], ao[1], rho1[2]], "fxc.shape()"@, "[nao, nao, nset]"@),
            first_failure(
                match buf {
                    Some(n) => pot_buf_check(n, rho1[0], ao[1]),
                    None => None,
                },
                lapl_check(den),
            ),
        ),
    )
}

/// Checks of the bra-transformed RKS second-order potential into `fxc`
/// `[nao, nocc, nset]` for a bra `[nao, nocc]`.
pub open spec fn rks_fxc_bra_trans_checks(
    den: NIDenType,
    fxc_eff: Seq<usize>,
    rho1: Seq<usize>,
    ao: Seq<usize>,
    weights: Seq<usize>,
    bra: Seq<usize>,
    fxc: Seq<usize>,
) -> Option<NIErrorView> {
    first_failure(
        rks_fxc_input_checks(den, fxc_eff, rho1, ao, weights),
        first_failure(
            ndim_check(bra, 2, "bra must be 2-dim"@, "bra.ndim()"@, "2"@),
            first_failure(
                dim_check(bra[0], ao[1], "bra first dimension must match nao"@, "bra.shape()[0]"@, "nao"@),
                first_failure(
                    out_check(fxc, seq![ao[1], bra[1], rho1[2]], "fxc.shape()"@, "[nao, nocc, nset]"@),
                    lapl_check(den),
                ),
            ),
        ),
    )
}

/// Checks of the RKS third-order potential into `kxc` `[nao, nao, nset1, nset2]`.
pub open spec fn rks_kxc_checks(
    den: NIDenType,
    kxc_eff: Seq<usize>,
    rho1: Seq<usize>,
    rho2: Seq<usize>,
    ao: Seq<usize>,
    weights: Seq<usize>,
    kxc: Seq<usize>,
) -> Option<NIErrorView> {
    let ngrids = rho1[0];
    let nvar = rho1[1];
    first_failure(
        ndim_check(rho1, 3, "rho1 tensor must be 3-dim"@, "rho1.ndim()"@, "3"@),
        first_failure(
            ndim_check(rho2, 3, "rho2 tensor must be 3-dim"@, "rho2.ndim()"@, "3"@),
            first_failure(
                eq_check(kxc_eff, seq![ngrids, nvar, nvar, nvar], "kxc_eff shape mismatch"@, "kxc_eff.shape()"@, "[ngrids, nvar, nvar, nvar]"@),
                first_failure(
                    eq_check(rho2.subrange(0, 2), seq![ngrids, nvar], "rho2 shape mismatch"@, "rho2.shape()[0..2]"@, "[ngrids, nvar]"@),
                    first_failure(
                        weights_check(weights, ngrids),
                        first_failure(
                            nvar_check(den, nvar),
                            first_failure(
                                ao_tensor_checks(ao, ngrids, den),
                                first_failure(
                                    out_check(kxc, seq![ao[1], ao[1], rho1[2], rho2[2]], "kxc.shape()"@, "[nao, nao, nset1, nset2]"@),
                                    lapl_check(den),
                                ),
                            ),
                        ),
                    ),
                ),
            ),
        ),
    )
}

/// Checks of the UKS first-order potential: `vxc_eff` `[ngrids, nvar, 2]` into
/// `vxc` `[nao, nao, 2]`.
pub open spec fn uks_vxc_checks(
    den: NIDenType,
    vxc_eff: Seq<usize>,
    ao: Seq<usize>,
    weights: Seq<usize>,
    vxc: Seq<usize>,
) -> Option<NIErrorView> {
    first_failure(
        ndim_check(vxc_eff, 3, "Effective potential must be 3-dim"@, "vxc_eff.ndim()"@, "3"@),
        first_failure(
            dim_check(vxc_eff[2], 2, "vxc_eff must have 2 spin channels"@, "vxc_eff.shape()[2]"@, "2"@),
            first_failure(
                weights_check(weights, vxc_eff[0]),
                first_failure(
                    nvar_check(den, vxc_eff[1]),
                    first_failure(
                        ao_tensor_checks(ao, vxc_eff[0], den),
                        first_failure(out_check(vxc, seq![ao[1], ao[1], 2], "vxc.shape()"@, "[nao, nao, 2]"@), lapl_check(den)),
                    ),
                ),
            ),
        ),
    )
}

/// Checks of the UKS second-order potential: `rho1` `[ngrids, nvar, 2, nset]`,
/// `fxc_eff` `[ngrids, nvar, 2, nvar, 2]` into `fxc` `[nao, nao, 2, nset]`.
pub open spec fn uks_fxc_checks(
    den: NIDenType,
    fxc_eff: Seq<usize>,
    rho1: Seq<usize>,
    ao: Seq<usize>,
    weights: Seq<usize>,
    fxc: Seq<usize>,
) -> Option<NIErrorView> {
    let ngrids = rho1[0];
    let nvar = rho1[1];
    first_failure(
        ndim_check(rho1, 4, "rho1 tensor must be 4-dim"@, "rho1.ndim()"@, "4"@),
        first_failure(
            dim_check(rho1[2], 2, "rho1 must have 2 spin channels"@, "rho1.shape()[2]"@, "2"@),
            first_failure(
                eq_check(fxc_eff, seq![ngrids, nvar, 2, nvar, 2], "fxc_eff shape mismatch"@, "fxc_eff.shape()"@, "[ngrids, nvar, 2, nvar, 2]"@),
                first_failure(
                    weights_check(weights, ngrids),
                    first_failure(
                        nvar_check(den, nvar),
                        first_failure(
                            ao_tensor_checks(ao, ngrids, den),
                            first_failure(
                                out_check(fxc, seq![ao[1], ao[1], 2, rho1[3]], "fxc.shape()"@, "[nao, nao, 2, nset]"@),
                                lapl_check(den),
                            ),
                        ),
                    ),
                ),
            ),
        ),
    )
}

/// Checks of the UKS third-order potential: `rho1` `[ngrids, nvar, 2, nset1]`,
/// `rho2` `[ngrids, nvar, 2, nset2]`, `kxc_eff` `[ngrids, nvar, 2, nvar, 2, nvar, 2]`
/// into `kxc` `[nao, nao, 2, nset1, nset2]`.
pub open spec fn uks_kxc_checks(
    den: NIDenType,
    kxc_eff: Seq<usize>,
    rho1: Seq<usize>,
    rho2: Seq<usize>,
    ao: Seq<usize>,
    weights: Seq<usize>,
    kxc: Seq<usize>,
) -> Option<NIErrorView> {
    let ngrids = rho1[0];
    let nvar = rho1[1];
    first_failure(
        ndim_check(rho1, 4, "rho1 tensor must be 4-dim"@, "rho1.ndim()"@, "4"@),
        first_failure(
            ndim_check(rho2, 4, "rho2 tensor must be 4-dim"@, "rho2.ndim()"@, "4"@),
            first_failure(
                dim_check(rho1[2], 2, "rho1 must have 2 spin channels"@, "rho1.shape()[2]"@, "2"@),
                first_failure(
                    eq_check(rho2.subrange(0, 3), seq![ngrids, nvar, 2], "rho2 shape mismatch"@, "rho2.shape()[0..3]"@, "[ngrids, nvar, 2]"@),
                    first_failure(
                        eq_check(
                            kxc_eff,
                            seq![ngrids, nvar, 2, nvar, 2, nvar, 2],
                            "kxc_eff shape mismatch"@,
                            "kxc_eff.shape()"@,
                            "[ngrids, nvar, 2, nvar, 2, nvar, 2]"@,
                        ),
                        first_failure(
                            weights_check(weights, ngrids),
                            first_failure(
                                nvar_check(den, nvar),
                                first_failure(
                                    ao_tensor_checks(ao, ngrids, den),
                                    first_failure(
                                        out_check(kxc, seq![ao[1], ao[1], 2, rho1[3], rho2[3]], "kxc.shape()"@, "[nao, nao, 2, nset1, nset2]"@),
                                        lapl_check(den),
                                    ),
                                ),
                            ),
                        ),
                    ),
                ),
            ),
        ),
    )
}

/// The potential routines refuse the Laplacian density type on every input.
pub proof fn law_potentials_refuse_lapl(
    wv: Seq<usize>,
    eff: Seq<usize>,
    rho1: Seq<usize>,
    rho2: Seq<usize>,
    ao: Seq<usize>,
    ao_bra: Seq<usize>,
    weights: Seq<usize>,
    bra: Seq<usize>,
    out: Seq<usize>,
    buf: Option<nat>,
)
    ensures
        contraction_checks(NIDenType::LAPL, wv, ao, out, buf) is Some,
        contraction_bra_checks(NIDenType::LAPL, wv, ao, ao_bra, out) is Some,
        rks_vxc_checks(NIDenType::LAPL, eff, ao, weights, out, buf) is Some,
        rks_fxc_checks(NIDenType::LAPL, eff, rho1, ao, weights, out, buf) is Some,
        rks_fxc_bra_trans_checks(NIDenType::LAPL, eff, rho1, ao, weights, bra, out) is Some,
        rks_kxc_checks(NIDenType::LAPL, eff, rho1, rho2, ao, weights, out) is Some,
        uks_vxc_checks(NIDenType::LAPL, eff, ao, weights, out) is Some,
        uks_fxc_checks(NIDenType::LAPL, eff, rho1, ao, weights, out) is Some,
        uks_kxc_checks(NIDenType::LAPL, eff, rho1, rho2, ao, weights, out) is Some,
{
}

/// Once the RKS first-order potential accepts its inputs, the contraction of
/// the weighted potential `[ngrids, nvar]` into `vxc` accepts them too.
pub proof fn law_rks_vxc_contraction_accepted(
    den: NIDenType,
    vxc_eff: Seq<usize>,
    ao: Seq<usize>,
    weights: Seq<usize>,
    vxc: Seq<usize>,
    buf: Option<nat>,
)
    requires
        rks_vxc_checks(den, vxc_eff, ao, weights, vxc, buf) is None,
    ensures
        contraction_checks(den, seq![vxc_eff[0], vxc_eff[1]], ao, vxc, buf) is None,
{
}

/// Once an RKS second-order potential accepts its inputs, the contraction of
/// each weighted kernel `[ngrids, nvar]` into a slice `[nao, nao]` of `fxc`
/// accepts them too.
pub proof fn law_rks_fxc_contraction_accepted(
    den: NIDenType,
    fxc_eff: Seq<usize>,
    rho1: Seq<usize>,
    ao: Seq<usize>,
    weights: Seq<usize>,
    fxc: Seq<usize>,
    buf: Option<nat>,
)
    requires
        rks_fxc_checks(den, fxc_eff, rho1, ao, weights, fxc, buf) is None,
    ensures
        contraction_checks(den, seq![rho1[0], rho1[1]], ao, seq![ao[1], ao[1]], buf) is None,
{
}

/// Once the RKS third-order potential accepts its inputs, the contraction of
/// each weighted kernel into a slice `[nao, nao]` of `kxc` accepts them too.
pub proof fn law_rks_kxc_contraction_accepted(
    den: NIDenType,
    kxc_eff: Seq<usize>,
    rho1: Seq<usize>,
    rho2: Seq<usize>,
    ao: Seq<usize>,
    weights: Seq<usize>,
    kxc: Seq<usize>,
)
    requires
        rks_kxc_checks(den, kxc_eff, rho1, rho2, ao, weights, kxc) is None,
    ensures
        contraction_checks(den, seq![rho1[0], rho1[1]], ao, seq![ao[1], ao[1]], None) is None,
{
}

/// Once a UKS potential accepts its inputs, the contraction of each spin
/// channel `[ngrids, nvar]` into a slice `[nao, nao]` accepts them too.
pub proof fn law_uks_contraction_accepted(
    den: NIDenType,
    eff: Seq<usize>,
    rho1: Seq<usize>,
    rho2: Seq<usize>,
    ao: Seq<usize>,
    weights: Seq<usize>,
    out: Seq<usize>,
)
    ensures
        uks_vxc_checks(den, eff, ao, weights, out) is None ==> contraction_checks(den, seq![eff[0], eff[1]], ao, seq![ao[1], ao[1]], None) is None,
        uks_fxc_checks(den, eff, rho1, ao, weights, out) is None ==> contraction_checks(den, seq![rho1[0], rho1[1]], ao, seq![ao[1], ao[1]], None) is None,
        uks_kxc_checks(den, eff, rho1, rho2, ao, weights, out) is None ==> contraction_checks(den, seq![rho1[0], rho1[1]], ao, seq![ao[1], ao[1]], None) is None,
{
}

/// Once the parallel RKS potential accepts its inputs, the contraction of each
/// grid chunk of at most `chunk` points accepts the chunk's potential
/// `[npts, nvar]`, AO values `[npts, nao, ncomp]`, a local output `[nao, nao]`
/// and the chunk buffer of `chunk * nao` values.
pub proof fn law_parenh_chunk_contraction_accepted(
    den: NIDenType,
    vxc_eff: Seq<usize>,
    ao: Seq<usize>,
    weights: Seq<usize>,
    vxc: Seq<usize>,
    npts: usize,
    chunk: nat,
)
    requires
        rks_vxc_checks(den, vxc_eff, ao, weights, vxc, None) is None,
        npts <= chunk,
    ensures
        contraction_checks(den, seq![npts, vxc_eff[1]], seq![npts, ao[1], ao[2]], seq![ao[1], ao[1]], Some(chunk * (ao[1] as nat))) is None,
{
    assert(chunk * (ao[1] as nat) >= npts * ao[1]) by (nonlinear_arith)
        requires npts <= chunk;
}

/// The effective potentials in the documented shapes of the XC evaluation
/// (orders 1 to 3, without and with spin) are accepted by the potential
/// routines, for AO values `[ngrids, nao, ncomp]` with the components of the
/// density type, weights `[ngrids]`, outputs of the planned shapes, enough
/// buffer, densities `rho1` and `rho2` of the response shapes, and a density
/// type other than the Laplacian one.
pub proof fn law_xc_eff_shapes_accepted(
    den: NIDenType,
    ngrids: usize,
    nao: usize,
    ncomp: usize,
    nset1: usize,
    nset2: usize,
    buf: nat,
)
    requires
        den != NIDenType::LAPL,
        ncomp >= ao_components(den),
        buf >= ngrids * nao,
    ensures
        ({
            let nvar = rho_components(den) as usize;
            let ao = seq![ngrids, nao, ncomp];
            let w = seq![ngrids];
            &&& rks_vxc_checks(den, xc_eff_shape_spec(ngrids, nvar, XcSpin::Unpolarized, 1), ao, w, seq![nao, nao], Some(buf)) is None
            &&& rks_fxc_checks(
                den,
                xc_eff_shape_spec(ngrids, nvar, XcSpin::Unpolarized, 2),
                seq![ngrids, nvar, nset1],
                ao,
                w,
                seq![nao, nao, nset1],
                Some(buf),
            ) is None
            &&& rks_kxc_checks(
                den,
                xc_eff_shape_spec(ngrids, nvar, XcSpin::Unpolarized, 3),
                seq![ngrids, nvar, nset1],
                seq![ngrids, nvar, nset2],
                ao,
                w,
                seq![nao, nao, nset1, nset2],
            ) is None
            &&& uks_vxc_checks(den, xc_eff_shape_spec(ngrids, nvar, XcSpin::Polarized, 1), ao, w, seq![nao, nao, 2]) is None
            &&& uks_fxc_checks(
                den,
                xc_eff_shape_spec(ngrids, nvar, XcSpin::Polarized, 2),
                seq![ngrids, nvar, 2, nset1],
                ao,
                w,
                seq![nao, nao, 2, nset1],
            ) is None
            &&& uks_kxc_checks(
                den,
                xc_eff_shape_spec(ngrids, nvar, XcSpin::Polarized, 3),
                seq![ngrids, nvar, 2, nset1],
                seq![ngrids, nvar, 2, nset2],
                ao,
                w,
                seq![nao, nao, 2, nset1, nset2],
            ) is None
        }),
{
    let nvar = rho_components(den) as usize;
    reveal_with_fuel(xc_eff_shape_spec, 4);
    assert(xc_eff_shape_spec(ngrids, nvar, XcSpin::Unpolarized, 1) =~= seq![ngrids, nvar]);
    assert(xc_eff_shape_spec(ngrids, nvar, XcSpin::Unpolarized, 2) =~= seq![ngrids, nvar, nvar]);
    assert(xc_eff_shape_spec(ngrids, nvar, XcSpin::Unpolarized, 3) =~= seq![ngrids, nvar, nvar, nvar]);
    assert(xc_eff_shape_spec(ngrids, nvar, XcSpin::Polarized, 1) =~= seq![ngrids, nvar, 2]);
    assert(xc_eff_shape_spec(ngrids, nvar, XcSpin::Polarized, 2) =~= seq![ngrids, nvar, 2, nvar, 2]);
    assert(xc_eff_shape_spec(ngrids, nvar, XcSpin::Polarized, 3) =~= seq![ngrids, nvar, 2, nvar, 2, nvar, 2]);
    assert(seq![ngrids, nvar, nset2].subrange(0, 2) =~= seq![ngrids, nvar]);
    assert(seq![ngrids, nvar, 2usize, nset2].subrange(0, 3) =~= seq![ngrids, nvar, 2usize]);
}

fn check_nvar(den_type: NIDenType, nvar: usize) -> (r: Result<(), NIError>)
    ensures
        res_view(r) == checked(nvar_check(den_type, nvar)),
{
    check_dim(den_type.num_nvar(), nvar, "Dimension mismatch for input density type", "den_type.num_nvar()", "nvar")
}

fn check_ao_tensor(ao_shape: &[usize], ngrids: usize, den_type: NIDenType) -> (r: Result<(), NIError>)
    ensures
        res_view(r) == checked(ao_tensor_checks(ao_shape@, ngrids, den_type)),
{
    let r = check_ndim(ao_shape, 3, "AO tensor must be 3-dim", "ao.ndim()", "3");
    if r.is_err() {
        return r;
    }
    let r = check_dim(ao_shape[0], ngrids, "AO grids dimension mismatch", "ao.shape()[0]", "ngrids");
    if r.is_err() {
        return r;
    }
    ni_check_shape_cond(
        ao_shape[2] >= den_type.num_ao_comp(),
        "AO component dimension insufficient",
        "ao.shape()[2] >= den_type.num_ao_comp()",
    )
}

fn check_weights(weights_shape: &[usize], ngrids: usize) -> (r: Result<(), NIError>)
    ensures
        res_view(r) == checked(weights_check(weights_shape@, ngrids)),
{
    ni_check_shape_eq(
        shape_vec(weights_shape),
        crate::checks::dims1(ngrids),
        "Weights shape mismatch",
        "weights.shape()",
        "[ngrids]",
    )
}

fn check_out(out_shape: &[usize], expected: Vec<usize>, out_src: &str, expected_src: &str) -> (r: Result<(), NIError>)
    ensures
        res_view(r) == checked(out_check(out_shape@, expected@, out_src@, expected_src@)),
{
    ni_check_shape_eq(shape_vec(out_shape), expected, "Output shape mismatch", out_src, expected_src)
}

fn check_lapl(den_type: NIDenType) -> (r: Result<(), NIError>)
    ensures
        res_view(r) == checked(lapl_check(den_type)),
{
    if den_type == NIDenType::LAPL {
        Err(ni_error("Contracting AO with LAPL density type is not supported"))
    } else {
        Ok(())
    }
}

fn check_pot_buf(buf_len: Option<usize>, ngrids: usize, nao: usize) -> (r: Result<(), NIError>)
    ensures
        res_view(r) == checked(
            match buf_len {
                Some(n) => pot_buf_check(n as nat, ngrids, nao),
                None => None,
            },
        ),
{
    match buf_len {
        Some(n) => ni_check_shape_cond(len_at_least(n, ngrids, nao), "Buffer length insufficient", "buf.len() >= ngrids * nao"),
        None => Ok(()),
    }
}

/// The optional buffer length as a mathematical value.
pub open spec fn opt_nat(b: Option<usize>) -> Option<nat> {
    match b {
        Some(n) => Some(n as nat),
        None => None,
    }
}

fn check_contraction(
    den_type: NIDenType,
    wv_shape: &[usize],
    ao_shape: &[usize],
    out_shape: &[usize],
    buf_len: Option<usize>,
) -> (r: Result<(), NIError>)
    ensures
        res_view(r) == checked(contraction_checks(den_type, wv_shape@, ao_shape@, out_shape@, opt_nat(buf_len))),
{
    let r = check_ndim(wv_shape, 2, "Weight vector must be 2-dim", "wv.ndim()", "2");
    if r.is_err() {
        return r;
    }
    let nvar = wv_shape[1];
    let ngrids = wv_shape[0];
    let r = check_nvar(den_type, nvar);
    if r.is_err() {
        return r;
    }
    let r = check_ao_tensor(ao_shape, ngrids, den_type);
    if r.is_err() {
        return r;
    }
    let nao = ao_shape[1];
    let r = check_out(out_shape, dims2(nao, nao), "out.shape()", "[nao, nao]");
    if r.is_err() {
        return r;
    }
    let r = check_pot_buf(buf_len, ngrids, nao);
    if r.is_err() {
        return r;
    }
    check_lapl(den_type)
}

/// Checks the shapes handed to the buffered AO contraction: a weight vector
/// `[ngrids, nvar]` of the density type, AO values `[ngrids, nao, ncomp]`, an
/// output `[nao, nao]`, a buffer of `ngrids * nao`, and not the Laplacian type.
pub fn check_contract_ao_wv_without_buf(
    den_type: NIDenType,
    wv_shape: &[usize],
    ao_shape: &[usize],
    out_shape: &[usize],
    buf_len: usize,
) -> (r: Result<(), NIError>)
    ensures
        res_view(r) == checked(contraction_checks(den_type, wv_shape@, ao_shape@, out_shape@, Some(buf_len as nat))),
{
    check_contraction(den_type, wv_shape, ao_shape, out_shape, Some(buf_len))
}

/// Checks the shapes handed to the unsymmetrised AO contraction of the
/// parallel potential: as [`check_contract_ao_wv_without_buf`].
pub fn check_contract_ao_wv_without_symmetrize(
    den_type: NIDenType,
    wv_shape: &[usize],
    ao_shape: &[usize],
    out_shape: &[usize],
    buf_len: usize,
) -> (r: Result<(), NIError>)
    ensures
        res_view(r) == checked(contraction_checks(den_type, wv_shape@, ao_shape@, out_shape@, Some(buf_len as nat))),
{
    check_contraction(den_type, wv_shape, ao_shape, out_shape, Some(buf_len))
}

/// Checks the shapes handed to the naive AO contraction: as
/// [`check_contract_ao_wv_without_buf`], without a buffer.
pub fn check_contract_ao_wv_naive(
    den_type: NIDenType,
    wv_shape: &[usize],
    ao_shape: &[usize],
    out_shape: &[usize],
) -> (r: Result<(), NIError>)
    ensures
        res_view(r) == checked(contraction_checks(den_type, wv_shape@, ao_shape@, out_shape@, None)),
{
    check_contraction(den_type, wv_shape, ao_shape, out_shape, None)
}

/// Checks the shapes handed to the naive bra-transformed AO contraction: a
/// weight vector `[ngrids, nvar]`, AO values `[ngrids, nao, ncomp]`,
/// bra-transformed AO values `[ngrids, nocc, ncomp]`, an output `[nao, nocc]`.
pub fn check_contract_ao_wv_bra_naive(
    den_type: NIDenType,
    wv_shape: &[usize],
    ao_shape: &[usize],
    ao_bra_shape: &[usize],
    out_shape: &[usize],
) -> (r: Result<(), NIError>)
    ensures
        res_view(r) == checked(contraction_bra_checks(den_type, wv_shape@, ao_shape@, ao_bra_shape@, out_shape@)),
{
    let r = check_ndim(wv_shape, 2, "Weight vector must be 2-dim", "wv.ndim()", "2");
    if r.is_err() {
        return r;
    }
    let nvar = wv_shape[1];
    let ngrids = wv_shape[0];
    let r = check_nvar(den_type, nvar);
    if r.is_err() {
        return r;
    }
    let r = check_ao_tensor(ao_shape, ngrids, den_type);
    if r.is_err() {
        return r;
    }
    let nao = ao_shape[1];
    let r = check_ndim(ao_bra_shape, 3, "ao_bra tensor must be 3-dim", "ao_bra.ndim()", "3");
    if r.is_err() {
        return r;
    }
    let r = check_dim(ao_bra_shape[0], ngrids, "ao_bra grids dimension mismatch", "ao_bra.shape()[0]", "ngrids");
    if r.is_err() {
        return r;
    }
    let nocc = ao_bra_shape[1];
    let r = ni_check_shape_cond(
        ao_bra_shape[2] >= den_type.num_ao_comp(),
        "ao_bra component dimension insufficient",
        "ao_bra.shape()[2] >= den_type.num_ao_comp()",
    );
    if r.is_err() {
        return r;
    }
    let r = check_out(out_shape, dims2(nao, nocc), "out.shape()", "[nao, nocc]");
    if r.is_err() {
        return r;
    }
    check_lapl(den_type)
}

fn check_rks_vxc(
    den_type: NIDenType,
    vxc_eff_shape: &[usize],
    ao_shape: &[usize],
    weights_shape: &[usize],
    vxc_shape: &[usize],
    buf_len: Option<usize>,
) -> (r: Result<(), NIError>)
    ensures
        res_view(r) == checked(rks_vxc_checks(den_type, vxc_eff_shape@, ao_shape@, weights_shape@, vxc_shape@, opt_nat(buf_len))),
{
    let r = check_ndim(vxc_eff_shape, 2, "Effective potential must be 2-dim", "vxc_eff.ndim()", "2");
    if r.is_err() {
        return r;
    }
    let nvar = vxc_eff_shape[1];
    let ngrids = vxc_eff_shape[0];
    let r = check_weights(weights_shape, ngrids);
    if r.is_err() {
        return r;
    }
    let r = check_nvar(den_type, nvar);
    if r.is_err() {
        return r;
    }
    let r = check_ao_tensor(ao_shape, ngrids, den_type);
    if r.is_err() {
        return r;
    }
    let nao = ao_shape[1];
    let r = check_out(vxc_shape, dims2(nao, nao), "vxc.shape()", "[nao, nao]");
    if r.is_err() {
        return r;
    }
    let r = check_pot_buf(buf_len, ngrids, nao);
    if r.is_err() {
        return r;
    }
    check_lapl(den_type)
}

/// Checks the shapes handed to the RKS first-order potential: `vxc_eff`
/// `[ngrids, nvar]` of the density type, weights `[ngrids]`, AO values
/// `[ngrids, nao, ncomp]`, `vxc` `[nao, nao]`, a buffer of `ngrids * nao`, and
/// not the Laplacian type.
pub fn check_rks_vxc_pot_with_output(
    den_type: NIDenType,
    vxc_eff_shape: &[usize],
    ao_shape: &[usize],
    weights_shape: &[usize],
    vxc_shape: &[usize],
    buf_len: usize,
) -> (r: Result<(), NIError>)
    ensures
        res_view(r) == checked(
            rks_vxc_checks(den_type, vxc_eff_shape@, ao_shape@, weights_shape@, vxc_shape@, Some(buf_len as nat)),
        ),
{
    check_rks_vxc(den_type, vxc_eff_shape, ao_shape, weights_shape, vxc_shape, Some(buf_len))
}

/// Checks the shapes handed to the naive RKS first-order potential: as
/// [`check_rks_vxc_pot_with_output`], without a buffer.
pub fn check_rks_vxc_pot_with_eff_with_output_naive(
    den_type: NIDenType,
    vxc_eff_shape: &[usize],
    ao_shape: &[usize],
    weights_shape: &[usize],
    vxc_shape: &[usize],
) -> (r: Result<(), NIError>)
    ensures
        res_view(r) == checked(rks_vxc_checks(den_type, vxc_eff_shape@, ao_shape@, weights_shape@, vxc_shape@, None)),
{
    check_rks_vxc(den_type, vxc_eff_shape, ao_shape, weights_shape, vxc_shape, None)
}

/// Checks the shapes handed to the parallel RKS first-order potential: as
/// [`check_rks_vxc_pot_with_output`], without a buffer.
pub fn check_rks_vxc_pot_with_output_parenh(
    den_type: NIDenType,
    vxc_eff_shape: &[usize],
    ao_shape: &[usize],
    weights_shape: &[usize],
    vxc_shape: &[usize],
) -> (r: Result<(), NIError>)
    ensures
        res_view(r) == checked(rks_vxc_checks(den_type, vxc_eff_shape@, ao_shape@, weights_shape@, vxc_shape@, None)),
{
    check_rks_vxc(den_type, vxc_eff_shape, ao_shape, weights_shape, vxc_shape, None)
}

fn check_rks_fxc_inputs(
    den_type: NIDenType,
    fxc_eff_shape: &[usize],
    rho1_shape: &[usize],
    ao_shape: &[usize],
    weights_shape: &[usize],
) -> (r: Result<(), NIError>)
    ensures
        res_view(r) == checked(rks_fxc_input_checks(den_type, fxc_eff_shape@, rho1_shape@, ao_shape@, weights_shape@)),
{
    let r = check_ndim(rho1_shape, 3, "rho1 tensor must be 3-dim", "rho1.ndim()", "3");
    if r.is_err() {
        return r;
    }
    let nvar = rho1_shape[1];
    let ngrids = rho1_shape[0];
    let r = ni_check_shape_eq(
        shape_vec(fxc_eff_shape),
        dims3(ngrids, nvar, nvar),
        "fxc_eff shape mismatch",
        "fxc_eff.shape()",
        "[ngrids, nvar, nvar]",
    );
    if r.is_err() {
        return r;
    }
    let r = check_weights(weights_shape, ngrids);
    if r.is_err() {
        return r;
    }
    let r = check_nvar(den_type, nvar);
    if r.is_err() {
        return r;
    }
    check_ao_tensor(ao_shape, ngrids, den_type)
}

fn check_rks_fxc(
    den_type: NIDenType,
    fxc_eff_shape: &[usize],
    rho1_shape: &[usize],
    ao_shape: &[usize],
    weights_shape: &[usize],
    fxc_shape: &[usize],
    buf_len: Option<usize>,
) -> (r: Result<(), NIError>)
    ensures
        res_view(r) == checked(
            rks_fxc_checks(den_type, fxc_eff_shape@, rho1_shape@, ao_shape@, weights_shape@, fxc_shape@, opt_nat(buf_len)),
        ),
{
    let r = check_rks_fxc_inputs(den_type, fxc_eff_shape, rho1_shape, ao_shape, weights_shape);
    if r.is_err() {
        return r;
    }
    let nao = ao_shape[1];
    let r = check_out(fxc_shape, dims3(nao, nao, rho1_shape[2]), "fxc.shape()", "[nao, nao, nset]");
    if r.is_err() {
        return r;
    }
    let r = check_pot_buf(buf_len, rho1_shape[0], nao);
    if r.is_err() {
        return r;
    }
    check_lapl(den_type)
}

/// Checks the shapes handed to the RKS second-order potential: `rho1`
/// `[ngrids, nvar, nset]`, `fxc_eff` `[ngrids, nvar, nvar]`, weights, AO values,
/// `fxc` `[nao, nao, nset]`, a buffer of `ngrids * nao`, not the Laplacian type.
pub fn check_rks_fxc_pot_with_output(
    den_type: NIDenType,
    fxc_eff_shape: &[usize],
    rho1_shape: &[usize],
    ao_shape: &[usize],
    weights_shape: &[usize],
    fxc_shape: &[usize],
    buf_len: usize,
) -> (r: Result<(), NIError>)
    ensures
        res_view(r) == checked(
            rks_fxc_checks(den_type, fxc_eff_shape@, rho1_shape@, ao_shape@, weights_shape@, fxc_shape@, Some(buf_len as nat)),
        ),
{
    check_rks_fxc(den_type, fxc_eff_shape, rho1_shape, ao_shape, weights_shape, fxc_shape, Some(buf_len))
}

/// Checks the shapes handed to the naive RKS second-order potential: as
/// [`check_rks_fxc_pot_with_output`], without a buffer.
pub fn check_rks_fxc_pot_with_eff_with_output_naive(
    den_type: NIDenType,
    fxc_eff_shape: &[usize],
    rho1_shape: &[usize],
    ao_shape: &[usize],
    weights_shape: &[usize],
    fxc_shape: &[usize],
) -> (r: Result<(), NIError>)
    ensures
        res_view(r) == checked(
            rks_fxc_checks(den_type, fxc_eff_shape@, rho1_shape@, ao_shape@, weights_shape@, fxc_shape@, None),
        ),
{
    check_rks_fxc(den_type, fxc_eff_shape, rho1_shape, ao_shape, weights_shape, fxc_shape, None)
}

/// Checks the shapes handed to the naive bra-transformed RKS second-order
/// potential: as the naive second-order potential, with a bra `[nao, nocc]`
/// and `fxc` `[nao, nocc, nset]`.
pub fn check_rks_fxc_pot_with_eff_bra_trans_naive(
    den_type: NIDenType,
    fxc_eff_shape: &[usize],
    rho1_shape: &[usize],
    ao_shape: &[usize],
    weights_shape: &[usize],
    bra_shape: &[usize],
    fxc_shape: &[usize],
) -> (r: Result<(), NIError>)
    ensures
        res_view(r) == checked(
            rks_fxc_bra_trans_checks(den_type, fxc_eff_shape@, rho1_shape@, ao_shape@, weights_shape@, bra_shape@, fxc_shape@),
        ),
{
    let r = check_rks_fxc_inputs(den_type, fxc_eff_shape, rho1_shape, ao_shape, weights_shape);
    if r.is_err() {
        return r;
    }
    let nao = ao_shape[1];
    let r = check_ndim(bra_shape, 2, "bra must be 2-dim", "bra.ndim()", "2");
    if r.is_err() {
        return r;
    }
    let r = check_dim(bra_shape[0], nao, "bra first dimension must match nao", "bra.shape()[0]", "nao");
    if r.is_err() {
        return r;
    }
    let r = check_out(fxc_shape, dims3(nao, bra_shape[1], rho1_shape[2]), "fxc.shape()", "[nao, nocc, nset]");
    if r.is_err() {
        return r;
    }
    check_lapl(den_type)
}

/// Checks the shapes handed to the naive RKS third-order potential: `rho1`
/// `[ngrids, nvar, nset1]`, `rho2` `[ngrids, nvar, nset2]`, `kxc_eff`
/// `[ngrids, nvar, nvar, nvar]`, weights, AO values, `kxc`
/// `[nao, nao, nset1, nset2]`, not the Laplacian type.
pub fn check_rks_kxc_pot_with_eff_with_output_naive(
    den_type: NIDenType,
    kxc_eff_shape: &[usize],
    rho1_shape: &[usize],
    rho2_shape: &[usize],
    ao_shape: &[usize],
    weights_shape: &[usize],
    kxc_shape: &[usize],
) -> (r: Result<(), NIError>)
    ensures
        res_view(r) == checked(
            rks_kxc_checks(den_type, kxc_eff_shape@, rho1_shape@, rho2_shape@, ao_shape@, weights_shape@, kxc_shape@),
        ),
{
    let r = check_ndim(rho1_shape, 3, "rho1 tensor must be 3-dim", "rho1.ndim()", "3");
    if r.is_err() {
        return r;
    }
    let r = check_ndim(rho2_shape, 3, "rho2 tensor must be 3-dim", "rho2.ndim()", "3");
    if r.is_err() {
        return r;
    }
    let nset1 = rho1_shape[2];
    let nset2 = rho2_shape[2];
    let nvar = rho1_shape[1];
    let ngrids = rho1_shape[0];
    let r = ni_check_shape_eq(
        shape_vec(kxc_eff_shape),
        dims4(ngrids, nvar, nvar, nvar),
        "kxc_eff shape mismatch",
        "kxc_eff.shape()",
        "[ngrids, nvar, nvar, nvar]",
    );
    if r.is_err() {
        return r;
    }
    let r = ni_check_shape_eq(
        shape_prefix(rho2_shape, 2),
        dims2(ngrids, nvar),
        "rho2 shape mismatch",
        "rho2.shape()[0..2]",
        "[ngrids, nvar]",
    );
    if r.is_err() {
        return r;
    }
    let r = check_weights(weights_shape, ngrids);
    if r.is_err() {
        return r;
    }
    let r = check_nvar(den_type, nvar);
    if r.is_err() {
        return r;
    }
    let r = check_ao_tensor(ao_shape, ngrids, den_type);
    if r.is_err() {
        return r;
    }
    let nao = ao_shape[1];
    let r = check_out(kxc_shape, dims4(nao, nao, nset1, nset2), "kxc.shape()", "[nao, nao, nset1, nset2]");
    if r.is_err() {
        return r;
    }
    check_lapl(den_type)
}

/// Checks the shapes handed to the naive UKS first-order potential: `vxc_eff`
/// `[ngrids, nvar, 2]`, weights, AO values, `vxc` `[nao, nao, 2]`, not the
/// Laplacian type.
pub fn check_uks_vxc_pot_with_eff_with_output_naive(
    den_type: NIDenType,
    vxc_eff_shape: &[usize],
    ao_shape: &[usize],
    weights_shape: &[usize],
    vxc_shape: &[usize],
) -> (r: Result<(), NIError>)
    ensures
        res_view(r) == checked(uks_vxc_checks(den_type, vxc_eff_shape@, ao_shape@, weights_shape@, vxc_shape@)),
{
    let r = check_ndim(vxc_eff_shape, 3, "Effective potential must be 3-dim", "vxc_eff.ndim()", "3");
    if r.is_err() {
        return r;
    }
    let nvar = vxc_eff_shape[1];
    let ngrids = vxc_eff_shape[0];
    let r = check_dim(vxc_eff_shape[2], 2, "vxc_eff must have 2 spin channels", "vxc_eff.shape()[2]", "2");
    if r.is_err() {
        return r;
    }
    let r = check_weights(weights_shape, ngrids);
    if r.is_err() {
        return r;
    }
    let r = check_nvar(den_type, nvar);
    if r.is_err() {
        return r;
    }
    let r = check_ao_tensor(ao_shape, ngrids, den_type);
    if r.is_err() {
        return r;
    }
    let nao = ao_shape[1];
    let r = check_out(vxc_shape, dims3(nao, nao, 2), "vxc.shape()", "[nao, nao, 2]");
    if r.is_err() {
        return r;
    }
    check_lapl(den_type)
}

/// Checks the shapes handed to the naive UKS second-order potential: `rho1`
/// `[ngrids, nvar, 2, nset]`, `fxc_eff` `[ngrids, nvar, 2, nvar, 2]`, weights,
/// AO values, `fxc` `[nao, nao, 2, nset]`, not the Laplacian type.
pub fn check_uks_fxc_pot_with_eff_with_output_naive(
    den_type: NIDenType,
    fxc_eff_shape: &[usize],
    rho1_shape: &[usize],
    ao_shape: &[usize],
    weights_shape: &[usize],
    fxc_shape: &[usize],
) -> (r: Result<(), NIError>)
    ensures
        res_view(r) == checked(uks_fxc_checks(den_type, fxc_eff_shape@, rho1_shape@, ao_shape@, weights_shape@, fxc_shape@)),
{
    let r = check_ndim(rho1_shape, 4, "rho1 tensor must be 4-dim", "rho1.ndim()", "4");
    if r.is_err() {
        return r;
    }
    let nset = rho1_shape[3];
    let nvar = rho1_shape[1];
    let ngrids = rho1_shape[0];
    let r = check_dim(rho1_shape[2], 2, "rho1 must have 2 spin channels", "rho1.shape()[2]", "2");
    if r.is_err() {
        return r;
    }
    let r = ni_check_shape_eq(
        shape_vec(fxc_eff_shape),
        dims5(ngrids, nvar, 2, nvar, 2),
        "fxc_eff shape mismatch",
        "fxc_eff.shape()",
        "[ngrids, nvar, 2, nvar, 2]",
    );
    if r.is_err() {
        return r;
    }
    let r = check_weights(weights_shape, ngrids);
    if r.is_err() {
        return r;
    }
    let r = check_nvar(den_type, nvar);
    if r.is_err() {
        return r;
    }
    let r = check_ao_tensor(ao_shape, ngrids, den_type);
    if r.is_err() {
        return r;
    }
    let nao = ao_shape[1];
    let r = check_out(fxc_shape, dims4(nao, nao, 2, nset), "fxc.shape()", "[nao, nao, 2, nset]");
    if r.is_err() {
        return r;
    }
    check_lapl(den_type)
}

fn dims7(a: usize, b: usize, c: usize, d: usize, e: usize, f: usize, g: usize) -> (v: Vec<usize>)
    ensures
        v@ == seq![a, b, c, d, e, f, g],
{
    let mut v = dims5(a, b, c, d, e);
    v.push(f);
    v.push(g);
    assert(v@ =~= seq![a, b, c, d, e, f, g]);
    v
}

/// Checks the shapes handed to the naive UKS third-order potential: `rho1`
/// `[ngrids, nvar, 2, nset1]`, `rho2` `[ngrids, nvar, 2, nset2]`, `kxc_eff`
/// `[ngrids, nvar, 2, nvar, 2, nvar, 2]`, weights, AO values, `kxc`
/// `[nao, nao, 2, nset1, nset2]`, not the Laplacian type.
pub fn check_uks_kxc_pot_with_eff_with_output_naive(
    den_type: NIDenType,
    kxc_eff_shape: &[usize],
    rho1_shape: &[usize],
    rho2_shape: &[usize],
    ao_shape: &[usize],
    weights_shape: &[usize],
    kxc_shape: &[usize],
) -> (r: Result<(), NIError>)
    ensures
        res_view(r) == checked(
            uks_kxc_checks(den_type, kxc_eff_shape@, rho1_shape@, rho2_shape@, ao_shape@, weights_shape@, kxc_shape@),
        ),
{
    let r = check_ndim(rho1_shape, 4, "rho1 tensor must be 4-dim", "rho1.ndim()", "4");
    if r.is_err() {
        return r;
    }
    let r = check_ndim(rho2_shape, 4, "rho2 tensor must be 4-dim", "rho2.ndim()", "4");
    if r.is_err() {
        return r;
    }
    let nset1 = rho1_shape[3];
    let nset2 = rho2_shape[3];
    let nvar = rho1_shape[1];
    let ngrids = rho1_shape[0];
    let r = check_dim(rho1_shape[2], 2, "rho1 must have 2 spin channels", "rho1.shape()[2]", "2");
    if r.is_err() {
        return r;
    }
    let r = ni_check_shape_eq(
        shape_prefix(rho2_shape, 3),
        dims3(ngrids, nvar, 2),
        "rho2 shape mismatch",
        "rho2.shape()[0..3]",
        "[ngrids, nvar, 2]",
    );
    if r.is_err() {
        return r;
    }
    let r = ni_check_shape_eq(
        shape_vec(kxc_eff_shape),
        dims7(ngrids, nvar, 2, nvar, 2, nvar, 2),
        "kxc_eff shape mismatch",
        "kxc_eff.shape()",
        "[ngrids, nvar, 2, nvar, 2, nvar, 2]",
    );
    if r.is_err() {
        return r;
    }
    let r = check_weights(weights_shape, ngrids);
    if r.is_err() {
        return r;
    }
    let r = check_nvar(den_type, nvar);
    if r.is_err() {
        return r;
    }
    let r = check_ao_tensor(ao_shape, ngrids, den_type);
    if r.is_err() {
        return r;
    }
    let nao = ao_shape[1];
    let r = check_out(kxc_shape, dims5(nao, nao, 2, nset1, nset2), "kxc.shape()", "[nao, nao, 2, nset1, nset2]");
    if r.is_err() {
        return r;
    }
    check_lapl(den_type)
}

} // verus!
