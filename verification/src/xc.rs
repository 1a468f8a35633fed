//! The density type and input layout that an XC functional needs, and the
//! checks of the reference XC drivers.
use vstd::prelude::*;
use vstd::string::*;
use libxc::enums::{LibXCFamily, LibXCSpin};
use libxc::functional::LibXCFunctional;
use crate::checks::{check_dim, check_ndim, dim_check, dims2, dims3, each_index, ndim_check, shape_vec, shape_views};
use crate::error::{checked, cond_check, eq_check, first_failure, message_error, ni_check_shape_cond, ni_check_shape_eq, ni_error, res_view, NIError, NIErrorView};
use crate::flags::{rho_components, NIDenType};

verus! {

#[verifier::external_type_specification]
#[verifier::external_body]
pub struct ExLibXCFunctional(LibXCFunctional);

/// The family of an XC functional.
#[derive(Debug, Clone, Copy, PartialEq, Eq, Structural)]
pub enum XcFamily {
    LDA,
    GGA,
    MGGA,
    LCA,
    OEP,
    HybGGA,
    HybMGGA,
    HybLDA,
}

/// The spin polarisation of an XC functional.
#[derive(Debug, Clone, Copy, PartialEq, Eq, Structural)]
pub enum XcSpin {
    Unpolarized,
    Polarized,
}

/// The family that libxc reports for a functional (`LibXCFunctional::family`).
/// Nothing is stated of the result: it is whatever the loaded library records
/// for the functional. The call panics only on a family code that the crate
/// does not know, which a functional made by the crate does not carry.
#[verifier::external_body]
fn xc_family(f: &LibXCFunctional) -> XcFamily {
    match f.family() {
        LibXCFamily::LDA => XcFamily::LDA,
        LibXCFamily::GGA => XcFamily::GGA,
        LibXCFamily::MGGA => XcFamily::MGGA,
        LibXCFamily::LCA => XcFamily::LCA,
        LibXCFamily::OEP => XcFamily::OEP,
        LibXCFamily::HybGGA => XcFamily::HybGGA,
        LibXCFamily::HybMGGA => XcFamily::HybMGGA,
        LibXCFamily::HybLDA => XcFamily::HybLDA,
    }
}

/// Whether libxc flags the functional as needing the Laplacian
/// (`LibXCFunctional::needs_laplacian`). Nothing is stated of the result.
#[verifier::external_body]
fn xc_needs_laplacian(f: &LibXCFunctional) -> bool {
    f.needs_laplacian()
}

/// The spin polarisation the functional was made with (`LibXCFunctional::spin`).
/// Nothing is stated of the result. The call panics only on a spin code that the
/// crate does not know, which a functional made by the crate does not carry.
#[verifier::external_body]
fn xc_spin(f: &LibXCFunctional) -> XcSpin {
    match f.spin() {
        LibXCSpin::Unpolarized => XcSpin::Unpolarized,
        LibXCSpin::Polarized => XcSpin::Polarized,
    }
}

/// The name by which a family is printed.
pub open spec fn family_name(f: XcFamily) -> Seq<char> {
    match f {
        XcFamily::LDA => "LDA"@,
        XcFamily::GGA => "GGA"@,
        XcFamily::MGGA => "MGGA"@,
        XcFamily::LCA => "LCA"@,
        XcFamily::OEP => "OEP"@,
        XcFamily::HybGGA => "HybGGA"@,
        XcFamily::HybMGGA => "HybMGGA"@,
        XcFamily::HybLDA => "HybLDA"@,
    }
}

/// Whether a family is one of the meta-GGA families.
pub open spec fn is_mgga(f: XcFamily) -> bool {
    f == XcFamily::MGGA || f == XcFamily::HybMGGA
}

/// The density type of a functional family: LDA needs the density, GGA its
/// gradient, meta-GGA the kinetic energy density or, when the functional needs
/// it, the Laplacian. Other families are refused.
pub open spec fn den_type_rule(f: XcFamily, needs_laplacian: bool) -> Result<NIDenType, NIErrorView> {
    match f {
        XcFamily::LDA | XcFamily::HybLDA => Ok(NIDenType::RHO),
        XcFamily::GGA | XcFamily::HybGGA => Ok(NIDenType::SIGMA),
        XcFamily::MGGA | XcFamily::HybMGGA => if needs_laplacian {
            Ok(NIDenType::LAPL)
        } else {
            Ok(NIDenType::TAU)
        },
        _ => Err(message_error("Unsupported functional family: "@ + family_name(f))),
    }
}

fn family_str(f: XcFamily) -> (s: &'static str)
    ensures
        s@ == family_name(f),
{
    match f {
        XcFamily::LDA => "LDA",
        XcFamily::GGA => "GGA",
        XcFamily::MGGA => "MGGA",
        XcFamily::LCA => "LCA",
        XcFamily::OEP => "OEP",
        XcFamily::HybGGA => "HybGGA",
        XcFamily::HybMGGA => "HybMGGA",
        XcFamily::HybLDA => "HybLDA",
    }
}

/// The density type of a functional of family `family`.
pub fn den_type_for_family(family: XcFamily, needs_laplacian: bool) -> (r: Result<NIDenType, NIError>)
    ensures
        res_view(r) == den_type_rule(family, needs_laplacian),
{
    match family {
        XcFamily::LDA | XcFamily::HybLDA => Ok(NIDenType::RHO),
        XcFamily::GGA | XcFamily::HybGGA => Ok(NIDenType::SIGMA),
        XcFamily::MGGA | XcFamily::HybMGGA => {
            if needs_laplacian {
                Ok(NIDenType::LAPL)
            } else {
                Ok(NIDenType::TAU)
            }
        },
        _ => Err(NIError::Message(String::from_str("Unsupported functional family: ").concat(family_str(family)))),
    }
}

/// The density type of a functional family: the Laplacian need decides only
/// for the meta-GGA families (Laplacian type exactly when needed, kinetic type
/// otherwise); the hybrid of a family has the type of the family; GGA needs
/// the gradient type, LDA the density type; only the LCA and OEP families are
/// refused, with the message naming the family.
pub proof fn law_den_type_by_family(f: XcFamily, l: bool)
    ensures
        is_mgga(f) ==> (den_type_rule(f, l) == Ok::<NIDenType, NIErrorView>(NIDenType::LAPL) <==> l),
        is_mgga(f) ==> (den_type_rule(f, l) == Ok::<NIDenType, NIErrorView>(NIDenType::TAU) <==> !l),
        !is_mgga(f) ==> den_type_rule(f, l) == den_type_rule(f, !l),
        den_type_rule(XcFamily::HybLDA, l) == den_type_rule(XcFamily::LDA, l),
        den_type_rule(XcFamily::HybGGA, l) == den_type_rule(XcFamily::GGA, l),
        den_type_rule(XcFamily::HybMGGA, l) == den_type_rule(XcFamily::MGGA, l),
        den_type_rule(XcFamily::GGA, l) == Ok::<NIDenType, NIErrorView>(NIDenType::SIGMA),
        den_type_rule(XcFamily::LDA, l) == Ok::<NIDenType, NIErrorView>(NIDenType::RHO),
        den_type_rule(f, l) is Err <==> (f == XcFamily::LCA || f == XcFamily::OEP),
        den_type_rule(f, l) is Err ==> den_type_rule(f, l) == Err::<NIDenType, NIErrorView>(
            message_error("Unsupported functional family: "@ + family_name(f)),
        ),
{
}

/// A functional's input plan follows its spin: a spin-unpolarised functional
/// accepts a density `[ngrids, nvar]` and refuses one with a spin axis; a
/// spin-polarised one accepts `[ngrids, nvar, 2]` and refuses one without; the
/// accepted plan carries the family's density type and asks for the gradient
/// and kinetic inputs exactly when that type has them.
pub proof fn law_input_plan_by_spin(f: XcFamily, ngrids: usize, nvar: usize)
    requires
        den_type_rule(f, false) is Ok,
        nvar >= rho_components(den_type_rule(f, false)->Ok_0),
    ensures
        ({
            let d = den_type_rule(f, false)->Ok_0;
            let plan = XcInputPlan {
                den_type: d,
                do_rho: true,
                do_sigma: d != NIDenType::RHO,
                do_tau: d == NIDenType::TAU || d == NIDenType::LAPL,
            };
            &&& libxc_input_plan_spec(XcSpin::Unpolarized, f, false, seq![ngrids, nvar]) == Ok::<XcInputPlan, NIErrorView>(plan)
            &&& libxc_input_plan_spec(XcSpin::Polarized, f, false, seq![ngrids, nvar, 2]) == Ok::<XcInputPlan, NIErrorView>(plan)
            &&& libxc_input_plan_spec(XcSpin::Unpolarized, f, false, seq![ngrids, nvar, 2]) is Err
            &&& libxc_input_plan_spec(XcSpin::Polarized, f, false, seq![ngrids, nvar]) is Err
        }),
{
}

/// The family and Laplacian need of a functional, as libxc reports them; the
/// Laplacian need is asked of meta-GGA functionals only, and is `false` for the others.
fn functional_traits(xc_func: &LibXCFunctional) -> (r: (XcFamily, bool))
    ensures
        !is_mgga(r.0) ==> !r.1,
{
    let family = xc_family(xc_func);
    let lapl = match family {
        XcFamily::MGGA | XcFamily::HybMGGA => xc_needs_laplacian(xc_func),
        _ => false,
    };
    (family, lapl)
}

/// The density type of a functional: by [`den_type_rule`] on the family and
/// Laplacian need that libxc reports for it.
pub fn determine_den_type(xc_func: &LibXCFunctional) -> (r: Result<NIDenType, NIError>)
    ensures
        exists|f: XcFamily, l: bool| res_view(r) == den_type_rule(f, l),
{
    let (family, lapl) = functional_traits(xc_func);
    den_type_for_family(family, lapl)
}

/// Which density inputs a functional is evaluated on, and its density type.
#[derive(Debug, Clone, Copy, PartialEq, Eq)]
pub struct XcInputPlan {
    pub den_type: NIDenType,
    pub do_rho: bool,
    pub do_sigma: bool,
    pub do_tau: bool,
}

/// The checks and plan of the evaluation of a functional on a density tensor:
/// `[ngrids, nvar]` without spin, `[ngrids, nvar, 2]` with spin; no
/// Laplacian-dependent functional; a supported family; enough density
/// variables. The density is always an input, the gradient for the gradient
/// types, the kinetic energy density for the kinetic types.
pub open spec fn libxc_input_plan_spec(
    spin: XcSpin,
    family: XcFamily,
    needs_laplacian: bool,
    rho: Seq<usize>,
) -> Result<XcInputPlan, NIErrorView> {
    let shape_err = match spin {
        XcSpin::Unpolarized => ndim_check(rho, 2, "rho for unpolarized functionals must be a 2D tensor"@, "rho.ndim()"@, "2"@),
        XcSpin::Polarized => first_failure(
            ndim_check(rho, 3, "rho for polarized functionals must be a 3D tensor"@, "rho.ndim()"@, "3"@),
            dim_check(rho[2], 2, "rho for polarized functionals must have last dimension of size 2"@, "rho.shape()[2]"@, "2"@),
        ),
    };
    if shape_err is Some {
        Err(shape_err->0)
    } else if needs_laplacian {
        Err(message_error("Laplacian-dependent functionals are not supported yet"@))
    } else {
        match den_type_rule(family, needs_laplacian) {
            Err(e) => Err(e),
            Ok(d) => if rho[1] >= rho_components(d) {
                Ok(
                    XcInputPlan {
                        den_type: d,
                        do_rho: true,
                        do_sigma: d == NIDenType::SIGMA || d == NIDenType::TAU || d == NIDenType::LAPL,
                        do_tau: d == NIDenType::TAU || d == NIDenType::LAPL,
                    },
                )
            } else {
                Err(
                    cond_check(
                        false,
                        "Input density does not have enough components"@,
                        "rho.shape()[1] >= den_type.num_rho_comp()"@,
                    )->0,
                )
            },
        }
    }
}

/// Checks a density tensor for the evaluation of a functional of the given
/// spin, family and Laplacian need, and plans which inputs it gets.
pub fn libxc_input_plan(spin: XcSpin, family: XcFamily, needs_laplacian: bool, rho_shape: &[usize]) -> (r: Result<
    XcInputPlan,
    NIError,
>)
    ensures
        res_view(r) == libxc_input_plan_spec(spin, family, needs_laplacian, rho_shape@),
{
    match spin {
        XcSpin::Unpolarized => {
            let r = check_ndim(rho_shape, 2, "rho for unpolarized functionals must be a 2D tensor", "rho.ndim()", "2");
            if let Err(e) = r {
                return Err(e);
            }
        },
        XcSpin::Polarized => {
            let r = check_ndim(rho_shape, 3, "rho for polarized functionals must be a 3D tensor", "rho.ndim()", "3");
            if let Err(e) = r {
                return Err(e);
            }
            let r = check_dim(
                rho_shape[2],
                2,
                "rho for polarized functionals must have last dimension of size 2",
                "rho.shape()[2]",
                "2",
            );
            if let Err(e) = r {
                return Err(e);
            }
        },
    }
    if needs_laplacian {
        return Err(ni_error("Laplacian-dependent functionals are not supported yet"));
    }
    let den_type = match den_type_for_family(family, needs_laplacian) {
        Ok(d) => d,
        Err(e) => {
            return Err(e);
        },
    };
    let r = ni_check_shape_cond(
        rho_shape[1] >= den_type.num_rho_components(),
        "Input density does not have enough components",
        "rho.shape()[1] >= den_type.num_rho_comp()",
    );
    if let Err(e) = r {
        return Err(e);
    }
    let do_rho = true;
    let do_sigma = match den_type {
        NIDenType::SIGMA | NIDenType::TAU | NIDenType::LAPL => true,
        _ => false,
    };
    let do_tau = match den_type {
        NIDenType::TAU | NIDenType::LAPL => true,
        _ => false,
    };
    Ok(XcInputPlan { den_type, do_rho, do_sigma, do_tau })
}

/// Checks a density tensor for the evaluation of `xc_func` and plans its
/// inputs, by [`libxc_input_plan_spec`] on what libxc reports of the functional.
pub fn libxc_input_plan_for(xc_func: &LibXCFunctional, rho_shape: &[usize]) -> (r: Result<XcInputPlan, NIError>)
    ensures
        exists|s: XcSpin, f: XcFamily, l: bool| res_view(r) == libxc_input_plan_spec(s, f, l, rho_shape@),
{
    let spin = xc_spin(xc_func);
    let lapl = xc_needs_laplacian(xc_func);
    let family = xc_family(xc_func);
    libxc_input_plan(spin, family, lapl, rho_shape)
}

/// The transpositions that bring libxc's spin-polarised output to grid-major
/// order: each component range whose length is not the grid count holds
/// `len / ngrids` values per grid point and is transposed, in range order.
pub open spec fn spin_transposes(ranges: Seq<(usize, usize)>, ngrids: nat) -> Seq<(usize, usize, usize)>
    decreases ranges.len(),
{
    if ranges.len() == 0 {
        Seq::empty()
    } else {
        let rest = spin_transposes(ranges.drop_last(), ngrids);
        let (start, end) = ranges.last();
        if end - start != ngrids {
            rest.push((start, end, ((end - start) / ngrids as int) as usize))
        } else {
            rest
        }
    }
}

/// Plans the transpositions of the spin-polarised output of libxc, given the
/// value range of each output component.
pub fn spin_component_transposes(ranges: &[(usize, usize)], ngrids: usize) -> (v: Vec<(usize, usize, usize)>)
    requires
        ngrids > 0,
        forall|i: int| 0 <= i < ranges@.len() ==> (#[trigger] ranges@[i]).0 <= ranges@[i].1,
    ensures
        v@ == spin_transposes(ranges@, ngrids as nat),
{
    let mut v: Vec<(usize, usize, usize)> = Vec::new();
    let mut i: usize = 0;
    while i < ranges.len()
        invariant
            ngrids > 0,
            0 <= i <= ranges@.len(),
            forall|k: int| 0 <= k < ranges@.len() ==> (#[trigger] ranges@[k]).0 <= ranges@[k].1,
            v@ == spin_transposes(ranges@.subrange(0, i as int), ngrids as nat),
        decreases ranges.len() - i,
    {
        assert(ranges@.subrange(0, i as int + 1).drop_last() =~= ranges@.subrange(0, i as int));
        let (start, end) = ranges[i];
        let len = end - start;
        if len != ngrids {
            v.push((start, end, len / ngrids));
        }
        i = i + 1;
    }
    assert(ranges@.subrange(0, ranges@.len() as int) =~= ranges@);
    v
}

/// Each planned transposition fits in its range: `ncomp * ngrids` values lie
/// between its start and end.
pub proof fn law_spin_transposes_fit(ranges: Seq<(usize, usize)>, ngrids: nat)
    requires
        ngrids > 0,
        forall|i: int| 0 <= i < ranges.len() ==> (#[trigger] ranges[i]).0 <= ranges[i].1,
    ensures
        forall|k: int|
            0 <= k < spin_transposes(ranges, ngrids).len() ==> {
                let t = #[trigger] spin_transposes(ranges, ngrids)[k];
                t.0 <= t.1 && t.2 * ngrids <= t.1 - t.0
            },
    decreases ranges.len(),
{
    if ranges.len() > 0 {
        let d = ranges.drop_last();
        assert forall|i: int| 0 <= i < d.len() implies (#[trigger] d[i]).0 <= d[i].1 by {
            assert(d[i] == ranges[i]);
        }
        law_spin_transposes_fit(d, ngrids);
        let rest = spin_transposes(d, ngrids);
        let all = spin_transposes(ranges, ngrids);
        let (start, end) = ranges.last();
        let len = end - start;
        assert(ranges.last() == ranges[ranges.len() - 1]);
        assert((len / ngrids as int) * ngrids <= len) by (nonlinear_arith)
            requires len >= 0, ngrids > 0;
        assert forall|k: int| 0 <= k < all.len() implies {
            let t = #[trigger] all[k];
            t.0 <= t.1 && t.2 * ngrids <= t.1 - t.0
        } by {
            if k < rest.len() {
                assert(all[k] == rest[k]);
            }
        }
    }
}

/// The number of output values per grid point.
pub fn xc_values_per_grid(total: usize, ngrids: usize) -> (r: usize)
    requires
        ngrids > 0,
    ensures
        r == total / ngrids,
{
    total / ngrids
}

/// The documented shape of the `order`-th output of the effective XC
/// evaluation on `ngrids` points with `nvar` density variables: `[ngrids]` for
/// the energy, then one `nvar` axis per order, each followed by a spin axis of
/// 2 for a spin-polarised functional.
pub open spec fn xc_eff_shape_spec(ngrids: usize, nvar: usize, spin: XcSpin, order: nat) -> Seq<usize>
    decreases order,
{
    if order == 0 {
        seq![ngrids]
    } else {
        let prev = xc_eff_shape_spec(ngrids, nvar, spin, (order - 1) as nat);
        match spin {
            XcSpin::Unpolarized => prev.push(nvar),
            XcSpin::Polarized => prev.push(nvar).push(2),
        }
    }
}

/// The shape of the `order`-th output of the effective XC evaluation.
pub fn xc_eff_shape(ngrids: usize, nvar: usize, spin: XcSpin, order: usize) -> (v: Vec<usize>)
    ensures
        v@ == xc_eff_shape_spec(ngrids, nvar, spin, order as nat),
{
    let mut v: Vec<usize> = Vec::new();
    v.push(ngrids);
    assert(v@ =~= xc_eff_shape_spec(ngrids, nvar, spin, 0));
    let mut k: usize = 0;
    while k < order
        invariant
            0 <= k <= order,
            v@ == xc_eff_shape_spec(ngrids, nvar, spin, k as nat),
        decreases order - k,
    {
        v.push(nvar);
        if spin == XcSpin::Polarized {
            v.push(2);
        }
        k = k + 1;
    }
    v
}

/// The first failure of a sequence of checks, or the value they guard.
pub open spec fn guarded<T>(o: Option<NIErrorView>, v: T) -> Result<T, NIErrorView> {
    match o {
        Some(e) => Err(e),
        None => Ok(v),
    }
}

/// The density type, unless the functional is refused or has the other spin.
pub open spec fn xc_den_and_spin(f: XcFamily, l: bool, s: XcSpin, want: XcSpin) -> Result<NIDenType, NIErrorView> {
    match den_type_rule(f, l) {
        Err(e) => Err(e),
        Ok(d) => if s == want {
            Ok(d)
        } else {
            Err(
                message_error(
                    if want == XcSpin::Unpolarized {
                        "Only unpolarized functionals are supported in this function"@
                    } else {
                        "Only polarized functionals are supported in this function"@
                    },
                ),
            )
        },
    }
}

/// Checks of the density matrix `[nao, nao]` of a spin-unpolarised driver.
pub open spec fn dm0_rks_checks(dm0: Seq<usize>) -> Option<NIErrorView> {
    first_failure(
        ndim_check(dm0, 2, "dm0 must be 2-dim for unpolarized case"@, "dm0.ndim()"@, "2"@),
        eq_check(dm0, seq![dm0[0], dm0[0]], "dm0 must be square with shape (nao, nao) for unpolarized case"@, "dm0.shape()"@, "[nao, nao]"@),
    )
}

/// The setup of the RKS first-order driver from a density matrix: density
/// type and `nao`.
pub open spec fn rks_vxc_from_dm_setup(f: XcFamily, l: bool, s: XcSpin, dm0: Seq<usize>) -> Result<(NIDenType, usize), NIErrorView> {
    match xc_den_and_spin(f, l, s, XcSpin::Unpolarized) {
        Err(e) => Err(e),
        Ok(d) => guarded(dm0_rks_checks(dm0), (d, dm0[0])),
    }
}

/// The setup of the RKS first-order driver from a bra: density type and `nao`.
pub open spec fn rks_vxc_from_bra_setup(f: XcFamily, l: bool, s: XcSpin, bra: Seq<usize>) -> Result<(NIDenType, usize), NIErrorView> {
    match xc_den_and_spin(f, l, s, XcSpin::Unpolarized) {
        Err(e) => Err(e),
        Ok(d) => guarded(ndim_check(bra, 2, "dm0 must be 2-dim for unpolarized case"@, "bra.ndim()"@, "2"@), (d, bra[0])),
    }
}

/// The setup of the RKS second-order driver from density matrices: density
/// type, `nao` and the number of perturbed densities.
pub open spec fn rks_fxc_from_dm_setup(f: XcFamily, l: bool, s: XcSpin, dm0: Seq<usize>, dm1s: Seq<Seq<usize>>) -> Result<
    (NIDenType, usize, usize),
    NIErrorView,
> {
    match xc_den_and_spin(f, l, s, XcSpin::Unpolarized) {
        Err(e) => Err(e),
        Ok(d) => guarded(
            first_failure(
                dm0_rks_checks(dm0),
                each_index(
                    dm1s.len(),
                    crate::lists::same_shape_item(
                        dm1s,
                        seq![dm0[0], dm0[0]],
                        "dm1 must have shape (nao, nao) for unpolarized case"@,
                        "dm1.shape()"@,
                        "[nao, nao]"@,
                    ),
                ),
            ),
            (d, dm0[0], dm1s.len() as usize),
        ),
    }
}

/// The setup of the RKS second-order driver from bras and kets: density type,
/// `nao` and the number of kets.
pub open spec fn rks_fxc_from_braket_setup(
    f: XcFamily,
    l: bool,
    s: XcSpin,
    bra0: Seq<usize>,
    bra1: Seq<usize>,
    ket1s: Seq<Seq<usize>>,
) -> Result<(NIDenType, usize, usize), NIErrorView> {
    match xc_den_and_spin(f, l, s, XcSpin::Unpolarized) {
        Err(e) => Err(e),
        Ok(d) => guarded(
            first_failure(
                ndim_check(bra0, 2, "bra0 must be 2-dim for unpolarized case"@, "bra0.ndim()"@, "2"@),
                first_failure(
                    ndim_check(bra1, 2, "bra1 must be 2-dim for unpolarized case"@, "bra1.ndim()"@, "2"@),
                    first_failure(
                        dim_check(bra1[0], bra0[0], "bra1 must have shape (nao, nocc) for unpolarized case"@, "bra1.shape()[0]"@, "nao"@),
                        each_index(
                            ket1s.len(),
                            crate::lists::same_shape_item(
                                ket1s,
                                seq![bra0[0], bra1[1]],
                                "ket1 must have shape (nao, nocc) for unpolarized case"@,
                                "ket1.shape()"@,
                                "[nao, nocc1]"@,
                            ),
                        ),
                    ),
                ),
            ),
            (d, bra0[0], ket1s.len() as usize),
        ),
    }
}

/// The setup of the UKS first-order driver from a density `[nao, nao, 2]`:
/// density type and `nao`.
pub open spec fn uks_vxc_from_dm_setup(f: XcFamily, l: bool, s: XcSpin, dm0: Seq<usize>) -> Result<(NIDenType, usize), NIErrorView> {
    match xc_den_and_spin(f, l, s, XcSpin::Polarized) {
        Err(e) => Err(e),
        Ok(d) => guarded(
            first_failure(
                ndim_check(dm0, 3, "dm0 must be 3-dim for polarized case"@, "dm0.ndim()"@, "3"@),
                eq_check(
                    dm0,
                    seq![dm0[0], dm0[0], 2],
                    "dm0 must have shape (nao, nao, 2) for polarized case"@,
                    "dm0.shape()"@,
                    "[nao, nao, 2]"@,
                ),
            ),
            (d, dm0[0]),
        ),
    }
}

fn den_and_spin(family: XcFamily, lapl: bool, spin: XcSpin, want: XcSpin) -> (r: Result<NIDenType, NIError>)
    ensures
        res_view(r) == xc_den_and_spin(family, lapl, spin, want),
{
    let d = match den_type_for_family(family, lapl) {
        Ok(d) => d,
        Err(e) => {
            return Err(e);
        },
    };
    if spin != want {
        if want == XcSpin::Unpolarized {
            return Err(ni_error("Only unpolarized functionals are supported in this function"));
        } else {
            return Err(ni_error("Only polarized functionals are supported in this function"));
        }
    }
    Ok(d)
}

fn check_dm0_rks(dm0_shape: &[usize]) -> (r: Result<(), NIError>)
    ensures
        res_view(r) == checked(dm0_rks_checks(dm0_shape@)),
{
    let r = check_ndim(dm0_shape, 2, "dm0 must be 2-dim for unpolarized case", "dm0.ndim()", "2");
    if r.is_err() {
        return r;
    }
    let nao = dm0_shape[0];
    ni_check_shape_eq(
        shape_vec(dm0_shape),
        dims2(nao, nao),
        "dm0 must be square with shape (nao, nao) for unpolarized case",
        "dm0.shape()",
        "[nao, nao]",
    )
}

/// Checks the inputs of the RKS first-order driver from a density matrix, for
/// a functional of the given family, Laplacian need and spin.
pub fn setup_compute_rks_vxc_from_dm(family: XcFamily, lapl: bool, spin: XcSpin, dm0_shape: &[usize]) -> (r: Result<
    (NIDenType, usize),
    NIError,
>)
    ensures
        res_view(r) == rks_vxc_from_dm_setup(family, lapl, spin, dm0_shape@),
{
    let d = match den_and_spin(family, lapl, spin, XcSpin::Unpolarized) {
        Ok(d) => d,
        Err(e) => {
            return Err(e);
        },
    };
    match check_dm0_rks(dm0_shape) {
        Err(e) => Err(e),
        Ok(()) => Ok((d, dm0_shape[0])),
    }
}

/// Checks the inputs of the RKS first-order driver from a bra.
pub fn setup_compute_rks_vxc_from_homogenous_bra(family: XcFamily, lapl: bool, spin: XcSpin, bra_shape: &[usize]) -> (r: Result<
    (NIDenType, usize),
    NIError,
>)
    ensures
        res_view(r) == rks_vxc_from_bra_setup(family, lapl, spin, bra_shape@),
{
    let d = match den_and_spin(family, lapl, spin, XcSpin::Unpolarized) {
        Ok(d) => d,
        Err(e) => {
            return Err(e);
        },
    };
    match check_ndim(bra_shape, 2, "dm0 must be 2-dim for unpolarized case", "bra.ndim()", "2") {
        Err(e) => Err(e),
        Ok(()) => Ok((d, bra_shape[0])),
    }
}

/// Checks the inputs of the RKS second-order driver from density matrices.
pub fn setup_compute_rks_fxc_from_dm(
    family: XcFamily,
    lapl: bool,
    spin: XcSpin,
    dm0_shape: &[usize],
    dm1_shapes: &[Vec<usize>],
) -> (r: Result<(NIDenType, usize, usize), NIError>)
    ensures
        res_view(r) == rks_fxc_from_dm_setup(family, lapl, spin, dm0_shape@, shape_views(dm1_shapes@)),
{
    let d = match den_and_spin(family, lapl, spin, XcSpin::Unpolarized) {
        Ok(d) => d,
        Err(e) => {
            return Err(e);
        },
    };
    if let Err(e) = check_dm0_rks(dm0_shape) {
        return Err(e);
    }
    let nao = dm0_shape[0];
    let expected = dims2(nao, nao);
    match crate::lists::check_each_shape_eq(
        dm1_shapes,
        &expected,
        "dm1 must have shape (nao, nao) for unpolarized case",
        "dm1.shape()",
        "[nao, nao]",
    ) {
        Err(e) => Err(e),
        Ok(()) => Ok((d, nao, dm1_shapes.len())),
    }
}

/// Checks the inputs of the RKS second-order driver from bras and kets.
pub fn setup_compute_rks_fxc_from_braket(
    family: XcFamily,
    lapl: bool,
    spin: XcSpin,
    bra0_shape: &[usize],
    bra1_shape: &[usize],
    ket1_shapes: &[Vec<usize>],
) -> (r: Result<(NIDenType, usize, usize), NIError>)
    ensures
        res_view(r) == rks_fxc_from_braket_setup(family, lapl, spin, bra0_shape@, bra1_shape@, shape_views(ket1_shapes@)),
{
    let d = match den_and_spin(family, lapl, spin, XcSpin::Unpolarized) {
        Ok(d) => d,
        Err(e) => {
            return Err(e);
        },
    };
    if let Err(e) = check_ndim(bra0_shape, 2, "bra0 must be 2-dim for unpolarized case", "bra0.ndim()", "2") {
        return Err(e);
    }
    let nao = bra0_shape[0];
    if let Err(e) = check_ndim(bra1_shape, 2, "bra1 must be 2-dim for unpolarized case", "bra1.ndim()", "2") {
        return Err(e);
    }
    if let Err(e) = check_dim(bra1_shape[0], nao, "bra1 must have shape (nao, nocc) for unpolarized case", "bra1.shape()[0]", "nao") {
        return Err(e);
    }
    let nocc1 = bra1_shape[1];
    let expected = dims2(nao, nocc1);
    match crate::lists::check_each_shape_eq(
        ket1_shapes,
        &expected,
        "ket1 must have shape (nao, nocc) for unpolarized case",
        "ket1.shape()",
        "[nao, nocc1]",
    ) {
        Err(e) => Err(e),
        Ok(()) => Ok((d, nao, ket1_shapes.len())),
    }
}

/// Checks the inputs of the UKS first-order driver from a density `[nao, nao, 2]`.
pub fn setup_compute_uks_vxc_from_dm(family: XcFamily, lapl: bool, spin: XcSpin, dm0_shape: &[usize]) -> (r: Result<
    (NIDenType, usize),
    NIError,
>)
    ensures
        res_view(r) == uks_vxc_from_dm_setup(family, lapl, spin, dm0_shape@),
{
    let d = match den_and_spin(family, lapl, spin, XcSpin::Polarized) {
        Ok(d) => d,
        Err(e) => {
            return Err(e);
        },
    };
    if let Err(e) = check_ndim(dm0_shape, 3, "dm0 must be 3-dim for polarized case", "dm0.ndim()", "3") {
        return Err(e);
    }
    let nao = dm0_shape[0];
    match ni_check_shape_eq(
        shape_vec(dm0_shape),
        dims3(nao, nao, 2),
        "dm0 must have shape (nao, nao, 2) for polarized case",
        "dm0.shape()",
        "[nao, nao, 2]",
    ) {
        Err(e) => Err(e),
        Ok(()) => Ok((d, nao)),
    }
}

/// The reference drivers take the density type of the functional's family and
/// the leading dimension of the density: a spin-unpolarised functional on a
/// density `[nao, nao]` (or a bra `[nao, nocc]`), a spin-polarised one on
/// `[nao, nao, 2]`; a functional of the other spin is refused.
pub proof fn law_driver_setup_by_family(f: XcFamily, l: bool, nao: usize, nocc: usize)
    requires
        den_type_rule(f, l) is Ok,
    ensures
        ({
            let d = den_type_rule(f, l)->Ok_0;
            &&& rks_vxc_from_dm_setup(f, l, XcSpin::Unpolarized, seq![nao, nao]) == Ok::<(NIDenType, usize), NIErrorView>((d, nao))
            &&& rks_vxc_from_bra_setup(f, l, XcSpin::Unpolarized, seq![nao, nocc]) == Ok::<(NIDenType, usize), NIErrorView>((d, nao))
            &&& uks_vxc_from_dm_setup(f, l, XcSpin::Polarized, seq![nao, nao, 2]) == Ok::<(NIDenType, usize), NIErrorView>((d, nao))
            &&& rks_vxc_from_dm_setup(f, l, XcSpin::Polarized, seq![nao, nao]) is Err
            &&& uks_vxc_from_dm_setup(f, l, XcSpin::Unpolarized, seq![nao, nao, 2]) is Err
        }),
{
}

/// The family, Laplacian need and spin that libxc reports of a functional.
fn functional_profile(xc_func: &LibXCFunctional) -> (r: (XcFamily, bool, XcSpin))
    ensures
        !is_mgga(r.0) ==> !r.1,
{
    let (family, lapl) = functional_traits(xc_func);
    let spin = xc_spin(xc_func);
    (family, lapl, spin)
}

/// Checks the inputs of the RKS first-order driver from a density matrix for
/// the functional `xc_func`, by [`rks_vxc_from_dm_setup`] on what libxc reports of it.
pub fn check_compute_rks_vxc_from_dm(xc_func: &LibXCFunctional, dm0_shape: &[usize]) -> (r: Result<(NIDenType, usize), NIError>)
    ensures
        exists|f: XcFamily, l: bool, s: XcSpin| res_view(r) == rks_vxc_from_dm_setup(f, l, s, dm0_shape@),
{
    let (f, l, s) = functional_profile(xc_func);
    setup_compute_rks_vxc_from_dm(f, l, s, dm0_shape)
}

/// Checks the inputs of the RKS first-order driver from a bra for the
/// functional `xc_func`, by [`rks_vxc_from_bra_setup`] on what libxc reports of it.
pub fn check_compute_rks_vxc_from_homogenous_bra(xc_func: &LibXCFunctional, bra_shape: &[usize]) -> (r: Result<
    (NIDenType, usize),
    NIError,
>)
    ensures
        exists|f: XcFamily, l: bool, s: XcSpin| res_view(r) == rks_vxc_from_bra_setup(f, l, s, bra_shape@),
{
    let (f, l, s) = functional_profile(xc_func);
    setup_compute_rks_vxc_from_homogenous_bra(f, l, s, bra_shape)
}

/// Checks the inputs of the RKS second-order driver from density matrices for
/// the functional `xc_func`, by [`rks_fxc_from_dm_setup`] on what libxc reports of it.
pub fn check_compute_rks_fxc_from_dm(xc_func: &LibXCFunctional, dm0_shape: &[usize], dm1_shapes: &[Vec<usize>]) -> (r: Result<
    (NIDenType, usize, usize),
    NIError,
>)
    ensures
        exists|f: XcFamily, l: bool, s: XcSpin| res_view(r) == rks_fxc_from_dm_setup(f, l, s, dm0_shape@, shape_views(dm1_shapes@)),
{
    let (f, l, s) = functional_profile(xc_func);
    setup_compute_rks_fxc_from_dm(f, l, s, dm0_shape, dm1_shapes)
}

/// Checks the inputs of the RKS second-order driver from bras and kets for the
/// functional `xc_func`, by [`rks_fxc_from_braket_setup`] on what libxc reports of it.
pub fn check_compute_rks_fxc_from_braket(
    xc_func: &LibXCFunctional,
    bra0_shape: &[usize],
    bra1_shape: &[usize],
    ket1_shapes: &[Vec<usize>],
) -> (r: Result<(NIDenType, usize, usize), NIError>)
    ensures
        exists|f: XcFamily, l: bool, s: XcSpin|
            res_view(r) == rks_fxc_from_braket_setup(f, l, s, bra0_shape@, bra1_shape@, shape_views(ket1_shapes@)),
{
    let (f, l, s) = functional_profile(xc_func);
    setup_compute_rks_fxc_from_braket(f, l, s, bra0_shape, bra1_shape, ket1_shapes)
}

/// Checks the inputs of the UKS first-order driver for the functional
/// `xc_func`, by [`uks_vxc_from_dm_setup`] on what libxc reports of it.
pub fn check_compute_uks_vxc_from_dm(xc_func: &LibXCFunctional, dm0_shape: &[usize]) -> (r: Result<(NIDenType, usize), NIError>)
    ensures
        exists|f: XcFamily, l: bool, s: XcSpin| res_view(r) == uks_vxc_from_dm_setup(f, l, s, dm0_shape@),
{
    let (f, l, s) = functional_profile(xc_func);
    setup_compute_uks_vxc_from_dm(f, l, s, dm0_shape)
}

} // verus!
