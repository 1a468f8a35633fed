use dft_numint::batches::NGRIDS_CHUNK;
use dft_numint::flags::NIDenType;
use dft_numint::xc::{xc_eff_shape, XcSpin};
use dft_numint::xcpot::{
    check_contract_ao_wv_naive, check_contract_ao_wv_without_buf, check_contract_ao_wv_without_symmetrize, check_rks_fxc_pot_with_output,
    check_rks_kxc_pot_with_eff_with_output_naive, check_rks_vxc_pot_with_output, check_rks_vxc_pot_with_output_parenh,
    check_uks_fxc_pot_with_eff_with_output_naive, check_uks_kxc_pot_with_eff_with_output_naive, check_uks_vxc_pot_with_eff_with_output_naive,
};

#[test]
fn accepted_potential_gives_accepted_contraction() {
    let ao = [30usize, 5, 4];
    assert!(check_rks_vxc_pot_with_output(NIDenType::SIGMA, &[30, 4], &ao, &[30], &[5, 5], 150).is_ok());
    assert!(check_contract_ao_wv_without_buf(NIDenType::SIGMA, &[30, 4], &ao, &[5, 5], 150).is_ok());
    assert!(check_uks_vxc_pot_with_eff_with_output_naive(NIDenType::SIGMA, &[30, 4, 2], &ao, &[30], &[5, 5, 2]).is_ok());
    assert!(check_contract_ao_wv_naive(NIDenType::SIGMA, &[30, 4], &ao, &[5, 5]).is_ok());
}

#[test]
fn parenh_chunks_fit_the_chunk_buffer() {
    let ao = [1000usize, 5, 1];
    assert!(check_rks_vxc_pot_with_output_parenh(NIDenType::RHO, &[1000, 1], &ao, &[1000], &[5, 5]).is_ok());
    for (start, end) in dft_numint::batches::parenh_grid_chunks(1000) {
        let n = end - start;
        assert!(check_contract_ao_wv_without_symmetrize(NIDenType::RHO, &[n, 1], &[n, 5, 1], &[5, 5], NGRIDS_CHUNK * 5).is_ok());
    }
}

#[test]
fn documented_xc_eff_shapes_are_accepted() {
    let (ngrids, nao) = (40usize, 6usize);
    for den in [NIDenType::RHO, NIDenType::SIGMA, NIDenType::TAU] {
        let nvar = den.num_nvar();
        let ao = [ngrids, nao, den.num_ao_comp()];
        let w = [ngrids];
        let u = |k| xc_eff_shape(ngrids, nvar, XcSpin::Unpolarized, k);
        let p = |k| xc_eff_shape(ngrids, nvar, XcSpin::Polarized, k);
        assert!(check_rks_vxc_pot_with_output(den, &u(1), &ao, &w, &[nao, nao], ngrids * nao).is_ok());
        assert!(check_rks_fxc_pot_with_output(den, &u(2), &[ngrids, nvar, 3], &ao, &w, &[nao, nao, 3], ngrids * nao).is_ok());
        assert!(check_rks_kxc_pot_with_eff_with_output_naive(den, &u(3), &[ngrids, nvar, 3], &[ngrids, nvar, 2], &ao, &w, &[nao, nao, 3, 2])
            .is_ok());
        assert!(check_uks_vxc_pot_with_eff_with_output_naive(den, &p(1), &ao, &w, &[nao, nao, 2]).is_ok());
        assert!(check_uks_fxc_pot_with_eff_with_output_naive(den, &p(2), &[ngrids, nvar, 2, 3], &ao, &w, &[nao, nao, 2, 3]).is_ok());
        assert!(check_uks_kxc_pot_with_eff_with_output_naive(
            den,
            &p(3),
            &[ngrids, nvar, 2, 3],
            &[ngrids, nvar, 2, 2],
            &ao,
            &w,
            &[nao, nao, 2, 3, 2]
        )
        .is_ok());
    }
}
