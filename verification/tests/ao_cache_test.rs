use dft_numint::ao_cache::{ao_cache_action, ao_deriv_key, decimal_string, gto_eval_name, parse_ao_deriv_key_str, parse_usize_from, AoCacheAction};

#[test]
fn keys_and_names() {
    assert_eq!(ao_deriv_key(0), "ao_deriv0");
    assert_eq!(ao_deriv_key(2), "ao_deriv2");
    assert_eq!(gto_eval_name(1), "deriv1");
    assert_eq!(decimal_string(0), "0");
    assert_eq!(decimal_string(1203), "1203");
    assert_eq!(decimal_string(usize::MAX), usize::MAX.to_string());
}

#[test]
fn key_round_trip() {
    for d in [0usize, 1, 4, 9, 10, 99, 12345, usize::MAX] {
        assert_eq!(parse_ao_deriv_key_str(&ao_deriv_key(d)), Some(d));
    }
}

#[test]
fn key_parsing_follows_usize_parsing() {
    for s in ["0", "17", "+3", "", "+", "-1", "1a", " 1", "007", "18446744073709551615", "18446744073709551616", "++1"] {
        assert_eq!(parse_usize_from(s, 0), s.parse::<usize>().ok(), "text {s:?}");
    }
    assert_eq!(parse_ao_deriv_key_str("ao_deriv3"), Some(3));
    assert_eq!(parse_ao_deriv_key_str("ao_deriv+3"), Some(3));
    assert_eq!(parse_ao_deriv_key_str("ao_deriv"), None);
    assert_eq!(parse_ao_deriv_key_str("ao_derivx"), None);
    assert_eq!(parse_ao_deriv_key_str("mo_coeff"), None);
    assert_eq!(parse_ao_deriv_key_str("ao_deri"), None);
}

fn keys(ks: &[&str]) -> Vec<String> {
    ks.iter().map(|k| k.to_string()).collect()
}

#[test]
fn empty_cache_computes() {
    match ao_cache_action(&[], 1) {
        AoCacheAction::Compute { key } => assert_eq!(key, "ao_deriv1"),
        other => panic!("{}", matches!(other, AoCacheAction::Reuse { .. })),
    }
}

#[test]
fn higher_order_cached_is_reused() {
    match ao_cache_action(&keys(&["weights", "ao_deriv2"]), 1) {
        AoCacheAction::Reuse { key, ncomp } => {
            assert_eq!(key, "ao_deriv1");
            assert_eq!(ncomp, 4);
        },
        AoCacheAction::Compute { .. } => panic!("expected reuse"),
    }
}

#[test]
fn lower_order_cached_computes() {
    match ao_cache_action(&keys(&["ao_deriv0", "ao_deriv1"]), 2) {
        AoCacheAction::Compute { key } => assert_eq!(key, "ao_deriv2"),
        AoCacheAction::Reuse { .. } => panic!("expected compute"),
    }
}

#[test]
fn reuse_after_compute() {
    let mut cached: Vec<String> = Vec::new();
    let key = match ao_cache_action(&cached, 2) {
        AoCacheAction::Compute { key } => key,
        AoCacheAction::Reuse { .. } => panic!("expected compute"),
    };
    cached.push(key);
    for request in 0..=2 {
        match ao_cache_action(&cached, request) {
            AoCacheAction::Reuse { key, ncomp } => {
                assert_eq!(key, ao_deriv_key(request));
                assert_eq!(ncomp, [1, 4, 10][request]);
            },
            AoCacheAction::Compute { .. } => panic!("expected reuse"),
        }
    }
}

#[test]
fn key_order_does_not_matter() {
    let a = ao_cache_action(&keys(&["ao_deriv1", "x", "ao_deriv3"]), 3);
    let b = ao_cache_action(&keys(&["ao_deriv3", "ao_deriv1", "x", "ao_deriv1"]), 3);
    let name = |a: &AoCacheAction| match a {
        AoCacheAction::Reuse { key, ncomp } => format!("reuse {key} {ncomp}"),
        AoCacheAction::Compute { key } => format!("compute {key}"),
    };
    assert_eq!(name(&a), name(&b));
    assert_eq!(name(&a), "reuse ao_deriv3 20");
}
