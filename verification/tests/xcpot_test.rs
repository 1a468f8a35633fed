use dft_numint::error::NIError;
use dft_numint::flags::NIDenType;
use dft_numint::xcpot::{
    check_contract_ao_wv_bra_naive, check_contract_ao_wv_naive, check_contract_ao_wv_without_buf,
    check_contract_ao_wv_without_symmetrize, check_rks_fxc_pot_with_eff_bra_trans_naive, check_rks_fxc_pot_with_eff_with_output_naive,
    check_rks_fxc_pot_with_output, check_rks_kxc_pot_with_eff_with_output_naive, check_rks_vxc_pot_with_eff_with_output_naive,
    check_rks_vxc_pot_with_output, check_rks_vxc_pot_with_output_parenh, check_uks_fxc_pot_with_eff_with_output_naive,
    check_uks_kxc_pot_with_eff_with_output_naive, check_uks_vxc_pot_with_eff_with_output_naive,
};

fn msg(r: Result<(), NIError>) -> String {
    match r {
        Err(NIError::ShapeMismatch { msg, .. }) => msg,
        Err(NIError::Message(m)) => m,
        Ok(()) => panic!("expected an error"),
    }
}

const AO: [usize; 3] = [50, 6, 4];
const LAPL_MSG: &str = "Contracting AO with LAPL density type is not supported";

#[test]
fn contraction_checks() {
    assert!(check_contract_ao_wv_without_buf(NIDenType::SIGMA, &[50, 4], &AO, &[6, 6], 300).is_ok());
    assert!(check_contract_ao_wv_without_symmetrize(NIDenType::SIGMA, &[50, 4], &AO, &[6, 6], 300).is_ok());
    assert!(check_contract_ao_wv_naive(NIDenType::TAU, &[50, 5], &AO, &[6, 6]).is_ok());
    assert_eq!(
        msg(check_contract_ao_wv_without_buf(NIDenType::SIGMA, &[50, 4], &AO, &[6, 6], 299)),
        "Buffer length insufficient (condition: buf.len() >= ngrids * nao)"
    );
    assert_eq!(
        msg(check_contract_ao_wv_naive(NIDenType::SIGMA, &[50, 4, 1], &AO, &[6, 6])),
        "Weight vector must be 2-dim (expected: wv.ndim(), actual: 2)"
    );
    assert_eq!(
        msg(check_contract_ao_wv_naive(NIDenType::SIGMA, &[50, 5], &AO, &[6, 6])),
        "Dimension mismatch for input density type (expected: den_type.num_nvar(), actual: nvar)"
    );
    assert_eq!(
        msg(check_contract_ao_wv_naive(NIDenType::SIGMA, &[49, 4], &AO, &[6, 6])),
        "AO grids dimension mismatch (expected: ao.shape()[0], actual: ngrids)"
    );
    assert_eq!(
        msg(check_contract_ao_wv_naive(NIDenType::SIGMA, &[50, 4], &[50, 6], &[6, 6])),
        "AO tensor must be 3-dim (expected: ao.ndim(), actual: 3)"
    );
    assert_eq!(
        msg(check_contract_ao_wv_naive(NIDenType::SIGMA, &[50, 4], &[50, 6, 1], &[6, 6])),
        "AO component dimension insufficient (condition: ao.shape()[2] >= den_type.num_ao_comp())"
    );
    assert_eq!(
        msg(check_contract_ao_wv_naive(NIDenType::SIGMA, &[50, 4], &AO, &[6, 5])),
        "Output shape mismatch (expected: out.shape(), actual: [nao, nao])"
    );
    assert_eq!(msg(check_contract_ao_wv_naive(NIDenType::LAPL, &[50, 6], &[50, 6, 10], &[6, 6])), LAPL_MSG);
}

#[test]
fn bra_contraction_checks() {
    assert!(check_contract_ao_wv_bra_naive(NIDenType::RHO, &[50, 1], &AO, &[50, 3, 1], &[6, 3]).is_ok());
    assert_eq!(
        msg(check_contract_ao_wv_bra_naive(NIDenType::RHO, &[50, 1], &AO, &[50, 3], &[6, 3])),
        "ao_bra tensor must be 3-dim (expected: ao_bra.ndim(), actual: 3)"
    );
    assert_eq!(
        msg(check_contract_ao_wv_bra_naive(NIDenType::RHO, &[50, 1], &AO, &[40, 3, 1], &[6, 3])),
        "ao_bra grids dimension mismatch (expected: ao_bra.shape()[0], actual: ngrids)"
    );
    assert_eq!(
        msg(check_contract_ao_wv_bra_naive(NIDenType::SIGMA, &[50, 4], &AO, &[50, 3, 1], &[6, 3])),
        "ao_bra component dimension insufficient (condition: ao_bra.shape()[2] >= den_type.num_ao_comp())"
    );
    assert_eq!(
        msg(check_contract_ao_wv_bra_naive(NIDenType::RHO, &[50, 1], &AO, &[50, 3, 1], &[6, 6])),
        "Output shape mismatch (expected: out.shape(), actual: [nao, nocc])"
    );
}

#[test]
fn rks_vxc_checks() {
    assert!(check_rks_vxc_pot_with_output(NIDenType::SIGMA, &[50, 4], &AO, &[50], &[6, 6], 300).is_ok());
    assert!(check_rks_vxc_pot_with_eff_with_output_naive(NIDenType::SIGMA, &[50, 4], &AO, &[50], &[6, 6]).is_ok());
    assert!(check_rks_vxc_pot_with_output_parenh(NIDenType::RHO, &[50, 1], &AO, &[50], &[6, 6]).is_ok());
    assert_eq!(
        msg(check_rks_vxc_pot_with_output(NIDenType::SIGMA, &[50], &AO, &[50], &[6, 6], 300)),
        "Effective potential must be 2-dim (expected: vxc_eff.ndim(), actual: 2)"
    );
    assert_eq!(
        msg(check_rks_vxc_pot_with_output(NIDenType::SIGMA, &[50, 4], &AO, &[51], &[6, 6], 300)),
        "Weights shape mismatch (expected: weights.shape(), actual: [ngrids])"
    );
    assert_eq!(
        msg(check_rks_vxc_pot_with_output(NIDenType::SIGMA, &[50, 4], &AO, &[50], &[6, 6, 1], 300)),
        "Output shape mismatch (expected: vxc.shape(), actual: [nao, nao])"
    );
    assert_eq!(
        msg(check_rks_vxc_pot_with_output(NIDenType::SIGMA, &[50, 4], &AO, &[50], &[6, 6], 10)),
        "Buffer length insufficient (condition: buf.len() >= ngrids * nao)"
    );
    assert_eq!(msg(check_rks_vxc_pot_with_output_parenh(NIDenType::LAPL, &[50, 6], &[50, 6, 10], &[50], &[6, 6])), LAPL_MSG);
}

#[test]
fn rks_fxc_checks() {
    assert!(check_rks_fxc_pot_with_output(NIDenType::RHO, &[50, 1, 1], &[50, 1, 3], &AO, &[50], &[6, 6, 3], 300).is_ok());
    assert!(check_rks_fxc_pot_with_eff_with_output_naive(NIDenType::RHO, &[50, 1, 1], &[50, 1, 3], &AO, &[50], &[6, 6, 3]).is_ok());
    assert_eq!(
        msg(check_rks_fxc_pot_with_output(NIDenType::RHO, &[50, 1, 1], &[50, 1], &AO, &[50], &[6, 6, 3], 300)),
        "rho1 tensor must be 3-dim (expected: rho1.ndim(), actual: 3)"
    );
    assert_eq!(
        msg(check_rks_fxc_pot_with_output(NIDenType::RHO, &[50, 1], &[50, 1, 3], &AO, &[50], &[6, 6, 3], 300)),
        "fxc_eff shape mismatch (expected: fxc_eff.shape(), actual: [ngrids, nvar, nvar])"
    );
    assert_eq!(
        msg(check_rks_fxc_pot_with_output(NIDenType::RHO, &[50, 1, 1], &[50, 1, 3], &AO, &[50], &[6, 6, 2], 300)),
        "Output shape mismatch (expected: fxc.shape(), actual: [nao, nao, nset])"
    );
    assert!(check_rks_fxc_pot_with_eff_bra_trans_naive(NIDenType::RHO, &[50, 1, 1], &[50, 1, 3], &AO, &[50], &[6, 2], &[6, 2, 3]).is_ok());
    assert_eq!(
        msg(check_rks_fxc_pot_with_eff_bra_trans_naive(NIDenType::RHO, &[50, 1, 1], &[50, 1, 3], &AO, &[50], &[6], &[6, 2, 3])),
        "bra must be 2-dim (expected: bra.ndim(), actual: 2)"
    );
    assert_eq!(
        msg(check_rks_fxc_pot_with_eff_bra_trans_naive(NIDenType::RHO, &[50, 1, 1], &[50, 1, 3], &AO, &[50], &[5, 2], &[6, 2, 3])),
        "bra first dimension must match nao (expected: bra.shape()[0], actual: nao)"
    );
    assert_eq!(
        msg(check_rks_fxc_pot_with_eff_bra_trans_naive(NIDenType::RHO, &[50, 1, 1], &[50, 1, 3], &AO, &[50], &[6, 2], &[6, 6, 3])),
        "Output shape mismatch (expected: fxc.shape(), actual: [nao, nocc, nset])"
    );
}

#[test]
fn rks_kxc_checks() {
    let k = [50usize, 1, 1, 1];
    assert!(check_rks_kxc_pot_with_eff_with_output_naive(NIDenType::RHO, &k, &[50, 1, 2], &[50, 1, 3], &AO, &[50], &[6, 6, 2, 3]).is_ok());
    assert_eq!(
        msg(check_rks_kxc_pot_with_eff_with_output_naive(NIDenType::RHO, &k, &[50, 1, 2], &[50, 1], &AO, &[50], &[6, 6, 2, 3])),
        "rho2 tensor must be 3-dim (expected: rho2.ndim(), actual: 3)"
    );
    assert_eq!(
        msg(check_rks_kxc_pot_with_eff_with_output_naive(NIDenType::RHO, &[50, 1, 1], &[50, 1, 2], &[50, 1, 3], &AO, &[50], &[6, 6, 2, 3])),
        "kxc_eff shape mismatch (expected: kxc_eff.shape(), actual: [ngrids, nvar, nvar, nvar])"
    );
    assert_eq!(
        msg(check_rks_kxc_pot_with_eff_with_output_naive(NIDenType::RHO, &k, &[50, 1, 2], &[40, 1, 3], &AO, &[50], &[6, 6, 2, 3])),
        "rho2 shape mismatch (expected: rho2.shape()[0..2], actual: [ngrids, nvar])"
    );
    assert_eq!(
        msg(check_rks_kxc_pot_with_eff_with_output_naive(NIDenType::RHO, &k, &[50, 1, 2], &[50, 1, 3], &AO, &[50], &[6, 6, 3, 2])),
        "Output shape mismatch (expected: kxc.shape(), actual: [nao, nao, nset1, nset2])"
    );
}

#[test]
fn uks_checks() {
    assert!(check_uks_vxc_pot_with_eff_with_output_naive(NIDenType::RHO, &[50, 1, 2], &AO, &[50], &[6, 6, 2]).is_ok());
    assert_eq!(
        msg(check_uks_vxc_pot_with_eff_with_output_naive(NIDenType::RHO, &[50, 1], &AO, &[50], &[6, 6, 2])),
        "Effective potential must be 3-dim (expected: vxc_eff.ndim(), actual: 3)"
    );
    assert_eq!(
        msg(check_uks_vxc_pot_with_eff_with_output_naive(NIDenType::RHO, &[50, 1, 1], &AO, &[50], &[6, 6, 2])),
        "vxc_eff must have 2 spin channels (expected: vxc_eff.shape()[2], actual: 2)"
    );
    assert_eq!(
        msg(check_uks_vxc_pot_with_eff_with_output_naive(NIDenType::RHO, &[50, 1, 2], &AO, &[50], &[6, 6])),
        "Output shape mismatch (expected: vxc.shape(), actual: [nao, nao, 2])"
    );
    let f = [50usize, 1, 2, 1, 2];
    assert!(check_uks_fxc_pot_with_eff_with_output_naive(NIDenType::RHO, &f, &[50, 1, 2, 3], &AO, &[50], &[6, 6, 2, 3]).is_ok());
    assert_eq!(
        msg(check_uks_fxc_pot_with_eff_with_output_naive(NIDenType::RHO, &f, &[50, 1, 2], &AO, &[50], &[6, 6, 2, 3])),
        "rho1 tensor must be 4-dim (expected: rho1.ndim(), actual: 4)"
    );
    assert_eq!(
        msg(check_uks_fxc_pot_with_eff_with_output_naive(NIDenType::RHO, &f, &[50, 1, 1, 3], &AO, &[50], &[6, 6, 2, 3])),
        "rho1 must have 2 spin channels (expected: rho1.shape()[2], actual: 2)"
    );
    assert_eq!(
        msg(check_uks_fxc_pot_with_eff_with_output_naive(NIDenType::RHO, &[50, 1, 2, 1], &[50, 1, 2, 3], &AO, &[50], &[6, 6, 2, 3])),
        "fxc_eff shape mismatch (expected: fxc_eff.shape(), actual: [ngrids, nvar, 2, nvar, 2])"
    );
    let k = [50usize, 1, 2, 1, 2, 1, 2];
    assert!(check_uks_kxc_pot_with_eff_with_output_naive(NIDenType::RHO, &k, &[50, 1, 2, 3], &[50, 1, 2, 4], &AO, &[50], &[6, 6, 2, 3, 4]).is_ok());
    assert_eq!(
        msg(check_uks_kxc_pot_with_eff_with_output_naive(NIDenType::RHO, &k, &[50, 1, 2, 3], &[50, 1, 1, 4], &AO, &[50], &[6, 6, 2, 3, 4])),
        "rho2 shape mismatch (expected: rho2.shape()[0..3], actual: [ngrids, nvar, 2])"
    );
    assert_eq!(
        msg(check_uks_kxc_pot_with_eff_with_output_naive(NIDenType::RHO, &k, &[50, 1, 2, 3], &[50, 1, 2], &AO, &[50], &[6, 6, 2, 3, 4])),
        "rho2 tensor must be 4-dim (expected: rho2.ndim(), actual: 4)"
    );
    assert_eq!(
        msg(check_uks_kxc_pot_with_eff_with_output_naive(NIDenType::RHO, &[50, 1, 2], &[50, 1, 2, 3], &[50, 1, 2, 4], &AO, &[50], &[6, 6, 2, 3, 4])),
        "kxc_eff shape mismatch (expected: kxc_eff.shape(), actual: [ngrids, nvar, 2, nvar, 2, nvar, 2])"
    );
    assert_eq!(
        msg(check_uks_kxc_pot_with_eff_with_output_naive(NIDenType::RHO, &k, &[50, 1, 2, 3], &[50, 1, 2, 4], &AO, &[50], &[6, 6, 2, 4, 3])),
        "Output shape mismatch (expected: kxc.shape(), actual: [nao, nao, 2, nset1, nset2])"
    );
}

#[test]
fn laplacian_refused_everywhere() {
    let ao = [50usize, 6, 10];
    assert_eq!(msg(check_rks_vxc_pot_with_eff_with_output_naive(NIDenType::LAPL, &[50, 6], &ao, &[50], &[6, 6])), LAPL_MSG);
    assert_eq!(msg(check_rks_fxc_pot_with_output(NIDenType::LAPL, &[50, 6, 6], &[50, 6, 1], &ao, &[50], &[6, 6, 1], 300)), LAPL_MSG);
    assert_eq!(msg(check_uks_vxc_pot_with_eff_with_output_naive(NIDenType::LAPL, &[50, 6, 2], &ao, &[50], &[6, 6, 2])), LAPL_MSG);
}
