use dft_numint::error::NIError;
use dft_numint::eval_rho::{
    check_rho_from_dm_with_output, check_rho_from_homogeneous_braket_with_output, check_rho_from_mult_bra_mult_ket_with_output,
    check_rho_from_one_bra_mult_ket_with_output,
};
use dft_numint::flags::NIDenType;
use dft_numint::plans::{
    get_rho_from_dm_dims, plan_make_fxc_pot_with_eff, plan_make_kxc_pot_with_eff, plan_make_rho_from_dm, plan_make_rho_from_dm_tensor,
    plan_make_rho_from_homogeneous_braket, plan_make_rho_from_mult_bra_mult_ket, plan_make_rho_from_one_bra_mult_ket,
    plan_make_vxc_pot_with_eff,
};

fn msg<T>(r: Result<T, NIError>) -> String {
    match r {
        Err(NIError::ShapeMismatch { msg, .. }) => msg,
        Err(NIError::Message(m)) => m,
        Ok(_) => panic!("expected an error"),
    }
}

const AO: [usize; 3] = [20, 5, 4];

#[test]
fn rho_from_dm_plan_and_inner_check() {
    let dms = vec![vec![5, 5], vec![5, 5], vec![5, 5]];
    let p = plan_make_rho_from_dm(&AO, &dms, NIDenType::SIGMA).unwrap();
    assert_eq!(p.out_shape, vec![20, 4, 3]);
    assert_eq!(p.buf_len, 100);
    assert!(check_rho_from_dm_with_output(&AO, &dms, NIDenType::SIGMA, &p.out_shape, p.buf_len).is_ok());
    assert_eq!(
        msg(plan_make_rho_from_dm(&AO, &[vec![5, 4]], NIDenType::RHO)),
        "Density matrix must match AO dimension (expected: dm.shape()[0..2], actual: [nao, nao])"
    );
}

#[test]
fn homogeneous_braket_plan() {
    let bras = vec![vec![5, 2], vec![5, 3]];
    let p = plan_make_rho_from_homogeneous_braket(&AO, &bras, NIDenType::RHO).unwrap();
    assert_eq!(p.out_shape, vec![20, 1, 2]);
    assert_eq!(p.buf_len, 2 * 20 * 3);
    assert!(check_rho_from_homogeneous_braket_with_output(&AO, &bras, NIDenType::RHO, &p.out_shape, p.buf_len).is_ok());
    assert_eq!(
        msg(plan_make_rho_from_homogeneous_braket(&AO, &[vec![4, 2]], NIDenType::RHO)),
        "Bra's first dimension must match AO dimension (expected: bra.shape()[0], actual: nao)"
    );
    assert_eq!(
        msg(plan_make_rho_from_homogeneous_braket(&AO, &[vec![5]], NIDenType::RHO)),
        "Each braket must be 2D (expected: bra.ndim(), actual: 2)"
    );
    let empty = plan_make_rho_from_homogeneous_braket(&AO, &[], NIDenType::RHO).unwrap();
    assert_eq!(empty.buf_len, 0);
}

#[test]
fn one_bra_mult_ket_plan() {
    let kets = vec![vec![5, 2]];
    let p = plan_make_rho_from_one_bra_mult_ket(&AO, &[5, 2], &kets, NIDenType::TAU).unwrap();
    assert_eq!(p.out_shape, vec![20, 5, 1]);
    assert_eq!(p.buf_len, 3 * 20 * 2);
    assert!(check_rho_from_one_bra_mult_ket_with_output(&AO, &[5, 2], &kets, NIDenType::TAU, &p.out_shape, p.buf_len).is_ok());
    assert_eq!(
        msg(plan_make_rho_from_one_bra_mult_ket(&AO, &[5, 2], &[vec![4, 2]], NIDenType::TAU)),
        "Ket first dimension must match AO dimension (expected: ket.shape()[0], actual: nao)"
    );
}

#[test]
fn mult_bra_mult_ket_plan() {
    let bras = vec![vec![5, 1], vec![5, 4]];
    let kets = vec![vec![5, 1], vec![5, 4]];
    let p = plan_make_rho_from_mult_bra_mult_ket(&AO, &bras, &kets, NIDenType::RHO).unwrap();
    assert_eq!(p.out_shape, vec![20, 1, 2]);
    assert_eq!(p.buf_len, 3 * 20 * 4);
    assert!(check_rho_from_mult_bra_mult_ket_with_output(&AO, &bras, &kets, NIDenType::RHO, &p.out_shape, p.buf_len).is_ok());
    // the driver pairs the lists as far as the shorter reaches; the routine then refuses unequal lengths
    let p = plan_make_rho_from_mult_bra_mult_ket(&AO, &bras, &kets[..1], NIDenType::RHO).unwrap();
    assert_eq!(
        msg(check_rho_from_mult_bra_mult_ket_with_output(&AO, &bras, &kets[..1], NIDenType::RHO, &p.out_shape, p.buf_len)),
        "bra_list and ket_list must have same length (expected: bra_list.len(), actual: ket_list.len())"
    );
}

#[test]
fn dm_tensor_plan() {
    let p = plan_make_rho_from_dm_tensor(&AO, &[5, 5, 2, 3], NIDenType::SIGMA).unwrap();
    assert_eq!(p.dm_shape, vec![5, 5, 6]);
    assert_eq!(p.out_shape, vec![20, 4, 6]);
    assert_eq!(p.buf_len, 100);
    assert_eq!(p.final_shape, vec![20, 4, 2, 3]);
    let p = plan_make_rho_from_dm_tensor(&AO, &[5, 5], NIDenType::RHO).unwrap();
    assert_eq!(p.dm_shape, vec![5, 5, 1]);
    assert_eq!(p.final_shape, vec![20, 1]);
    assert_eq!(msg(plan_make_rho_from_dm_tensor(&AO, &[5], NIDenType::RHO)), "Density matrix must be at least 2D (condition: dm.ndim() >= 2)");
    assert_eq!(
        msg(plan_make_rho_from_dm_tensor(&AO, &[5, 4, 2], NIDenType::RHO)),
        "Density matrix must be square and match AO dimension (expected: dm.shape()[0..2], actual: [nao, nao])"
    );
}

#[test]
fn potential_plans() {
    let p = plan_make_vxc_pot_with_eff(7, 30, 0);
    assert_eq!(p.out_shape, vec![7, 7]);
    assert_eq!(p.buf_len, 210);
    assert_eq!(plan_make_vxc_pot_with_eff(7, 30, 1).out_shape, vec![7, 7, 2]);
    assert_eq!(plan_make_fxc_pot_with_eff(7, 30, &[30, 4, 3], 0).out_shape, vec![7, 7, 3]);
    assert_eq!(plan_make_fxc_pot_with_eff(7, 30, &[30, 4, 2, 5], 1).out_shape, vec![7, 7, 2, 5]);
    assert_eq!(plan_make_kxc_pot_with_eff(7, 30, &[30, 4, 3], &[30, 4, 2], 0).out_shape, vec![7, 7, 3, 2]);
    assert_eq!(plan_make_kxc_pot_with_eff(7, 30, &[30, 4, 2, 3], &[30, 4, 2, 2], 1).out_shape, vec![7, 7, 2, 3, 2]);
}

#[test]
fn plain_density_dims() {
    assert_eq!(get_rho_from_dm_dims(&[10, 4, 1], &[4, 4, 3], 0), (10, 4, 3));
}
