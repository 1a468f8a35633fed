use dft_numint::error::NIError;
use dft_numint::eval_rho::{
    check_rho_from_dm_with_output, check_rho_from_dm_with_output_naive, check_rho_from_homogeneous_braket_with_output,
    check_rho_from_homogeneous_braket_with_output_naive, check_rho_from_mult_bra_mult_ket_with_output,
    check_rho_from_mult_bra_mult_ket_with_output_naive, check_rho_from_one_bra_mult_ket_with_output,
    check_rho_from_one_bra_mult_ket_with_output_naive,
};
use dft_numint::flags::NIDenType;

fn shape_err(r: Result<(), NIError>) -> (Vec<usize>, Vec<usize>, String) {
    match r {
        Err(NIError::ShapeMismatch { expected, actual, msg }) => (expected, actual, msg),
        other => panic!("expected a shape error, got {other:?}"),
    }
}

const AO: [usize; 3] = [100, 7, 4];

#[test]
fn dm_valid_inputs_pass() {
    let dms = vec![vec![7, 7], vec![7, 7]];
    assert!(check_rho_from_dm_with_output(&AO, &dms, NIDenType::SIGMA, &[100, 4, 2], 700).is_ok());
    assert!(check_rho_from_dm_with_output_naive(&AO, &dms, NIDenType::SIGMA, &[100, 4, 2]).is_ok());
}

#[test]
fn dm_ao_not_three_dims() {
    let (e, a, m) = shape_err(check_rho_from_dm_with_output(&[100, 7], &[], NIDenType::RHO, &[100, 1, 0], 700));
    assert_eq!((e, a), (vec![2], vec![3]));
    assert_eq!(m, "AO values must be 3D (expected: ao.ndim(), actual: 3)");
    let (_, _, m) = shape_err(check_rho_from_dm_with_output_naive(&[100, 7], &[], NIDenType::RHO, &[100, 1, 0]));
    assert_eq!(m, "AO values must be 3-dim (expected: ao.ndim(), actual: 3)");
}

#[test]
fn dm_not_two_dims() {
    let dms = vec![vec![7, 7], vec![7, 7, 1]];
    let (e, a, m) = shape_err(check_rho_from_dm_with_output(&AO, &dms, NIDenType::RHO, &[100, 1, 2], 700));
    assert_eq!((e, a), (vec![3], vec![2]));
    assert_eq!(m, "Each density matrix must be 2D (expected: dm.ndim(), actual: 2)");
}

#[test]
fn dm_wrong_size_is_first_failure() {
    let dms = vec![vec![7, 6], vec![5]];
    let (e, a, m) = shape_err(check_rho_from_dm_with_output(&AO, &dms, NIDenType::RHO, &[100, 1, 2], 700));
    assert_eq!((e, a), (vec![7, 6], vec![7, 7]));
    assert_eq!(m, "Density matrix must match AO dimension (expected: dm.shape()[0..2], actual: [nao, nao])");
}

#[test]
fn dm_output_shape_mismatch() {
    let dms = vec![vec![7, 7]];
    let (e, a, m) = shape_err(check_rho_from_dm_with_output(&AO, &dms, NIDenType::TAU, &[100, 4, 1], 700));
    assert_eq!((e, a), (vec![100, 4, 1], vec![100, 5, 1]));
    assert_eq!(m, "Output shape mismatch (expected: out.shape().clone(), actual: [ngrids, den_type.num_nvar(), nset])");
}

#[test]
fn dm_buffer_too_small() {
    let dms = vec![vec![7, 7]];
    let (e, a, m) = shape_err(check_rho_from_dm_with_output(&AO, &dms, NIDenType::RHO, &[100, 1, 1], 699));
    assert!(e.is_empty() && a.is_empty());
    assert_eq!(m, "Buffer length insufficient (condition: buf.len() >= ngrids * nao)");
}

#[test]
fn dm_ao_components_insufficient() {
    let dms = vec![vec![7, 7]];
    let (_, _, m) = shape_err(check_rho_from_dm_with_output(&AO, &dms, NIDenType::LAPL, &[100, 6, 1], 700));
    assert_eq!(m, "AO component dimension insufficient (condition: ao.shape()[2] >= den_type.num_ao_comp())");
    assert!(check_rho_from_dm_with_output(&[100, 7, 10], &dms, NIDenType::LAPL, &[100, 6, 1], 700).is_ok());
}

#[test]
fn homogeneous_braket_checks() {
    let bras = vec![vec![7, 3], vec![7, 5]];
    // buffer of 2 * ngrid * nocc_max = 2 * 100 * 5
    assert!(check_rho_from_homogeneous_braket_with_output(&AO, &bras, NIDenType::SIGMA, &[100, 4, 2], 1000).is_ok());
    let (_, _, m) = shape_err(check_rho_from_homogeneous_braket_with_output(&AO, &bras, NIDenType::SIGMA, &[100, 4, 2], 999));
    assert_eq!(m, "Buffer length insufficient (condition: buf.len() >= 2 * ngrid * nocc_max)");
    let bad = vec![vec![7, 3], vec![6, 5]];
    let (e, a, m) = shape_err(check_rho_from_homogeneous_braket_with_output(&AO, &bad, NIDenType::SIGMA, &[100, 4, 2], 1000));
    assert_eq!((e, a), (vec![7], vec![6]));
    assert_eq!(m, "AO dimension must match braket dimension (expected: nao, actual: bra.shape()[0])");
    let (_, _, m) = shape_err(check_rho_from_homogeneous_braket_with_output(&AO, &[vec![7]], NIDenType::RHO, &[100, 1, 1], 0));
    assert_eq!(m, "Each bra must be 2D (expected: bra.ndim(), actual: 2)");
    let (_, _, m) = shape_err(check_rho_from_homogeneous_braket_with_output(&AO, &bras, NIDenType::RHO, &[100, 1, 3], 1000));
    assert_eq!(m, "Output shape mismatch (expected: out.shape().clone(), actual: [ngrid, den_type.num_nvar(), nset])");
}

#[test]
fn homogeneous_braket_without_bras_needs_no_buffer() {
    assert!(check_rho_from_homogeneous_braket_with_output(&AO, &[], NIDenType::RHO, &[100, 1, 0], 0).is_ok());
}

#[test]
fn homogeneous_braket_naive_checks() {
    let bras = vec![vec![7, 3]];
    assert!(check_rho_from_homogeneous_braket_with_output_naive(&AO, &bras, NIDenType::TAU, &[100, 5, 1]).is_ok());
    let (_, _, m) = shape_err(check_rho_from_homogeneous_braket_with_output_naive(&AO, &[vec![7, 3, 1]], NIDenType::TAU, &[100, 5, 1]));
    assert_eq!(m, "Each bra must be 2-dim (expected: bra.ndim(), actual: 2)");
    let (_, _, m) = shape_err(check_rho_from_homogeneous_braket_with_output_naive(&AO, &bras, NIDenType::TAU, &[100, 4, 1]));
    assert_eq!(m, "Output shape mismatch (expected: out.shape().clone(), actual: [ngrids, den_type.num_nvar(), nset])");
}

#[test]
fn one_bra_mult_ket_checks() {
    let bra = [7usize, 3];
    let kets = vec![vec![7, 3], vec![7, 3]];
    assert!(check_rho_from_one_bra_mult_ket_with_output(&AO, &bra, &kets, NIDenType::RHO, &[100, 1, 2], 900).is_ok());
    let (_, _, m) = shape_err(check_rho_from_one_bra_mult_ket_with_output(&AO, &bra, &kets, NIDenType::RHO, &[100, 1, 2], 899));
    assert_eq!(m, "Buffer length insufficient (condition: buf.len() >= 3 * ngrid * nocc)");
    let (e, a, m) = shape_err(check_rho_from_one_bra_mult_ket_with_output(&AO, &bra, &[vec![7, 4]], NIDenType::RHO, &[100, 1, 1], 900));
    assert_eq!((e, a), (vec![4], vec![3]));
    assert_eq!(m, "Ket second dimension must match bra (expected: ket.shape()[1], actual: nocc)");
    let (_, _, m) = shape_err(check_rho_from_one_bra_mult_ket_with_output(&AO, &[6, 3], &kets, NIDenType::RHO, &[100, 1, 2], 900));
    assert_eq!(m, "Bra first dimension must match AO dimension (expected: nao, actual: bra.shape()[0])");
    let (_, _, m) = shape_err(check_rho_from_one_bra_mult_ket_with_output(&AO, &[7], &kets, NIDenType::RHO, &[100, 1, 2], 900));
    assert_eq!(m, "Bra must be 2D (expected: bra.ndim(), actual: 2)");
    let (_, _, m) = shape_err(check_rho_from_one_bra_mult_ket_with_output(&AO, &bra, &[vec![5, 3]], NIDenType::RHO, &[100, 1, 1], 900));
    assert_eq!(m, "Ket first dimension must match AO dimension (expected: nao, actual: ket.shape()[0])");
    let (_, _, m) = shape_err(check_rho_from_one_bra_mult_ket_with_output(&AO, &bra, &[vec![7, 3, 1]], NIDenType::RHO, &[100, 1, 1], 900));
    assert_eq!(m, "Each ket must be 2D (expected: ket.ndim(), actual: 2)");
}

#[test]
fn one_bra_mult_ket_naive_checks() {
    let (_, _, m) = shape_err(check_rho_from_one_bra_mult_ket_with_output_naive(&AO, &[7, 3, 1], &[], NIDenType::RHO, &[100, 1, 0]));
    assert_eq!(m, "Bra must be 2-dim (expected: bra.ndim(), actual: 2)");
    assert!(check_rho_from_one_bra_mult_ket_with_output_naive(&AO, &[7, 3], &[vec![7, 3]], NIDenType::SIGMA, &[100, 4, 1]).is_ok());
}

#[test]
fn mult_bra_mult_ket_checks() {
    let bras = vec![vec![7, 2], vec![7, 4]];
    let kets = vec![vec![7, 2], vec![7, 4]];
    assert!(check_rho_from_mult_bra_mult_ket_with_output(&AO, &bras, &kets, NIDenType::SIGMA, &[100, 4, 2], 1200).is_ok());
    let (_, _, m) = shape_err(check_rho_from_mult_bra_mult_ket_with_output(&AO, &bras, &kets, NIDenType::SIGMA, &[100, 4, 2], 1199));
    assert_eq!(m, "Buffer length insufficient (condition: buf.len() >= 3 * ngrid * nocc_max)");
    let (e, a, m) = shape_err(check_rho_from_mult_bra_mult_ket_with_output(&AO, &bras, &kets[..1], NIDenType::SIGMA, &[100, 4, 2], 1200));
    assert_eq!((e, a), (vec![2], vec![1]));
    assert_eq!(m, "bra_list and ket_list must have same length (expected: bra_list.len(), actual: ket_list.len())");
    let kets_bad = vec![vec![7, 2], vec![7, 3]];
    let (_, _, m) = shape_err(check_rho_from_mult_bra_mult_ket_with_output(&AO, &bras, &kets_bad, NIDenType::SIGMA, &[100, 4, 2], 1200));
    assert_eq!(m, "Bra and ket occupation must match (expected: bra.shape()[1], actual: ket.shape()[1])");
    let kets_3d = vec![vec![7, 2, 1], vec![7, 4]];
    let (_, _, m) = shape_err(check_rho_from_mult_bra_mult_ket_with_output(&AO, &bras, &kets_3d, NIDenType::SIGMA, &[100, 4, 2], 1200));
    assert_eq!(m, "Each ket must be 2D (expected: ket.ndim(), actual: 2)");
}

#[test]
fn mult_bra_mult_ket_naive_checks() {
    let bras = vec![vec![7, 2, 9]];
    let kets = vec![vec![7, 2]];
    let (_, _, m) = shape_err(check_rho_from_mult_bra_mult_ket_with_output_naive(&AO, &bras, &kets, NIDenType::RHO, &[100, 1, 1]));
    assert_eq!(m, "Each bra must be 2-dim (expected: bra.ndim(), actual: 2)");
    let (_, _, m) = shape_err(check_rho_from_mult_bra_mult_ket_with_output_naive(&AO, &[vec![7]], &[], NIDenType::RHO, &[100, 1, 1]));
    assert_eq!(m, "bra_list and ket_list must have same length (expected: bra_list.len(), actual: ket_list.len())");
}
