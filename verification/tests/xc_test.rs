use dft_numint::error::NIError;
use dft_numint::flags::NIDenType;
use dft_numint::xc::{
    den_type_for_family, libxc_input_plan, setup_compute_rks_fxc_from_braket, setup_compute_rks_fxc_from_dm, setup_compute_rks_vxc_from_dm,
    setup_compute_rks_vxc_from_homogenous_bra, setup_compute_uks_vxc_from_dm, spin_component_transposes, xc_eff_shape, xc_values_per_grid,
    XcFamily, XcInputPlan, XcSpin,
};

fn msg<T: std::fmt::Debug>(r: Result<T, NIError>) -> String {
    match r {
        Err(NIError::ShapeMismatch { msg, .. }) => msg,
        Err(NIError::Message(m)) => m,
        Ok(v) => panic!("expected an error, got {v:?}"),
    }
}

#[test]
fn den_type_by_family() {
    assert_eq!(den_type_for_family(XcFamily::LDA, false).unwrap(), NIDenType::RHO);
    assert_eq!(den_type_for_family(XcFamily::HybLDA, true).unwrap(), NIDenType::RHO);
    assert_eq!(den_type_for_family(XcFamily::GGA, false).unwrap(), NIDenType::SIGMA);
    assert_eq!(den_type_for_family(XcFamily::HybGGA, false).unwrap(), NIDenType::SIGMA);
    assert_eq!(den_type_for_family(XcFamily::MGGA, false).unwrap(), NIDenType::TAU);
    assert_eq!(den_type_for_family(XcFamily::HybMGGA, true).unwrap(), NIDenType::LAPL);
    assert_eq!(msg(den_type_for_family(XcFamily::LCA, false)), "Unsupported functional family: LCA");
    assert_eq!(msg(den_type_for_family(XcFamily::OEP, false)), "Unsupported functional family: OEP");
}

#[test]
fn input_plans() {
    let p = libxc_input_plan(XcSpin::Unpolarized, XcFamily::GGA, false, &[100, 4]).unwrap();
    assert_eq!(p, XcInputPlan { den_type: NIDenType::SIGMA, do_rho: true, do_sigma: true, do_tau: false });
    let p = libxc_input_plan(XcSpin::Polarized, XcFamily::HybMGGA, false, &[100, 5, 2]).unwrap();
    assert_eq!(p, XcInputPlan { den_type: NIDenType::TAU, do_rho: true, do_sigma: true, do_tau: true });
    let p = libxc_input_plan(XcSpin::Unpolarized, XcFamily::LDA, false, &[100, 6]).unwrap();
    assert_eq!(p, XcInputPlan { den_type: NIDenType::RHO, do_rho: true, do_sigma: false, do_tau: false });
    assert_eq!(
        msg(libxc_input_plan(XcSpin::Unpolarized, XcFamily::LDA, false, &[100, 1, 2])),
        "rho for unpolarized functionals must be a 2D tensor (expected: rho.ndim(), actual: 2)"
    );
    assert_eq!(
        msg(libxc_input_plan(XcSpin::Polarized, XcFamily::LDA, false, &[100, 1])),
        "rho for polarized functionals must be a 3D tensor (expected: rho.ndim(), actual: 3)"
    );
    assert_eq!(
        msg(libxc_input_plan(XcSpin::Polarized, XcFamily::LDA, false, &[100, 1, 1])),
        "rho for polarized functionals must have last dimension of size 2 (expected: rho.shape()[2], actual: 2)"
    );
    assert_eq!(
        msg(libxc_input_plan(XcSpin::Unpolarized, XcFamily::MGGA, true, &[100, 6])),
        "Laplacian-dependent functionals are not supported yet"
    );
    assert_eq!(msg(libxc_input_plan(XcSpin::Unpolarized, XcFamily::OEP, false, &[100, 6])), "Unsupported functional family: OEP");
    assert_eq!(
        msg(libxc_input_plan(XcSpin::Unpolarized, XcFamily::GGA, false, &[100, 3])),
        "Input density does not have enough components (condition: rho.shape()[1] >= den_type.num_rho_comp())"
    );
}

#[test]
fn driver_setups() {
    assert_eq!(setup_compute_rks_vxc_from_dm(XcFamily::GGA, false, XcSpin::Unpolarized, &[7, 7]).unwrap(), (NIDenType::SIGMA, 7));
    assert_eq!(
        msg(setup_compute_rks_vxc_from_dm(XcFamily::GGA, false, XcSpin::Polarized, &[7, 7])),
        "Only unpolarized functionals are supported in this function"
    );
    assert_eq!(msg(setup_compute_rks_vxc_from_dm(XcFamily::LCA, false, XcSpin::Polarized, &[7, 7])), "Unsupported functional family: LCA");
    assert_eq!(
        msg(setup_compute_rks_vxc_from_dm(XcFamily::LDA, false, XcSpin::Unpolarized, &[7, 7, 1])),
        "dm0 must be 2-dim for unpolarized case (expected: dm0.ndim(), actual: 2)"
    );
    assert_eq!(
        msg(setup_compute_rks_vxc_from_dm(XcFamily::LDA, false, XcSpin::Unpolarized, &[7, 6])),
        "dm0 must be square with shape (nao, nao) for unpolarized case (expected: dm0.shape(), actual: [nao, nao])"
    );
    assert_eq!(setup_compute_rks_vxc_from_homogenous_bra(XcFamily::LDA, false, XcSpin::Unpolarized, &[7, 3]).unwrap(), (NIDenType::RHO, 7));
    assert_eq!(
        msg(setup_compute_rks_vxc_from_homogenous_bra(XcFamily::LDA, false, XcSpin::Unpolarized, &[7])),
        "dm0 must be 2-dim for unpolarized case (expected: bra.ndim(), actual: 2)"
    );
    let dm1 = vec![vec![7, 7], vec![7, 7]];
    assert_eq!(setup_compute_rks_fxc_from_dm(XcFamily::MGGA, false, XcSpin::Unpolarized, &[7, 7], &dm1).unwrap(), (NIDenType::TAU, 7, 2));
    assert_eq!(
        msg(setup_compute_rks_fxc_from_dm(XcFamily::MGGA, false, XcSpin::Unpolarized, &[7, 7], &[vec![7, 7], vec![7, 6]])),
        "dm1 must have shape (nao, nao) for unpolarized case (expected: dm1.shape(), actual: [nao, nao])"
    );
    let kets = vec![vec![7, 3]];
    assert_eq!(
        setup_compute_rks_fxc_from_braket(XcFamily::GGA, false, XcSpin::Unpolarized, &[7, 4], &[7, 3], &kets).unwrap(),
        (NIDenType::SIGMA, 7, 1)
    );
    assert_eq!(
        msg(setup_compute_rks_fxc_from_braket(XcFamily::GGA, false, XcSpin::Unpolarized, &[7, 4], &[6, 3], &kets)),
        "bra1 must have shape (nao, nocc) for unpolarized case (expected: bra1.shape()[0], actual: nao)"
    );
    assert_eq!(
        msg(setup_compute_rks_fxc_from_braket(XcFamily::GGA, false, XcSpin::Unpolarized, &[7, 4], &[7, 3], &[vec![7, 4]])),
        "ket1 must have shape (nao, nocc) for unpolarized case (expected: ket1.shape(), actual: [nao, nocc1])"
    );
    assert_eq!(
        msg(setup_compute_rks_fxc_from_braket(XcFamily::GGA, false, XcSpin::Unpolarized, &[7], &[7, 3], &kets)),
        "bra0 must be 2-dim for unpolarized case (expected: bra0.ndim(), actual: 2)"
    );
    assert_eq!(
        msg(setup_compute_rks_fxc_from_braket(XcFamily::GGA, false, XcSpin::Unpolarized, &[7, 4], &[7], &kets)),
        "bra1 must be 2-dim for unpolarized case (expected: bra1.ndim(), actual: 2)"
    );
    assert_eq!(setup_compute_uks_vxc_from_dm(XcFamily::LDA, false, XcSpin::Polarized, &[7, 7, 2]).unwrap(), (NIDenType::RHO, 7));
    assert_eq!(
        msg(setup_compute_uks_vxc_from_dm(XcFamily::LDA, false, XcSpin::Unpolarized, &[7, 7, 2])),
        "Only polarized functionals are supported in this function"
    );
    assert_eq!(
        msg(setup_compute_uks_vxc_from_dm(XcFamily::LDA, false, XcSpin::Polarized, &[7, 7])),
        "dm0 must be 3-dim for polarized case (expected: dm0.ndim(), actual: 3)"
    );
    assert_eq!(
        msg(setup_compute_uks_vxc_from_dm(XcFamily::LDA, false, XcSpin::Polarized, &[7, 7, 1])),
        "dm0 must have shape (nao, nao, 2) for polarized case (expected: dm0.shape(), actual: [nao, nao, 2])"
    );
}

#[test]
fn spin_transposes_plan() {
    // energy per grid (10), vrho with 2 spins (20), vsigma with 3 spin pairs (30)
    let plan = spin_component_transposes(&[(0, 10), (10, 30), (30, 60)], 10);
    assert_eq!(plan, vec![(10, 30, 2), (30, 60, 3)]);
    assert_eq!(xc_values_per_grid(60, 10), 6);
}

#[test]
fn documented_xc_eff_shapes() {
    assert_eq!(xc_eff_shape(100, 4, XcSpin::Unpolarized, 0), vec![100]);
    assert_eq!(xc_eff_shape(100, 4, XcSpin::Unpolarized, 1), vec![100, 4]);
    assert_eq!(xc_eff_shape(100, 4, XcSpin::Unpolarized, 2), vec![100, 4, 4]);
    assert_eq!(xc_eff_shape(100, 4, XcSpin::Polarized, 1), vec![100, 4, 2]);
    assert_eq!(xc_eff_shape(100, 4, XcSpin::Polarized, 3), vec![100, 4, 2, 4, 2, 4, 2]);
}
