use dft_numint::error::{ni_check_shape_cond, ni_check_shape_eq, ni_error, shape_eq, NIError, NIIntoUsizeVec};

fn mismatch(e: NIError) -> (Vec<usize>, Vec<usize>, String) {
    match e {
        NIError::ShapeMismatch { expected, actual, msg } => (expected, actual, msg),
        NIError::Message(m) => panic!("unexpected message error {m}"),
    }
}

#[test]
fn equal_shapes_pass() {
    assert!(ni_check_shape_eq(vec![2, 3], vec![2, 3], "m", "a", "b").is_ok());
}

#[test]
fn different_shapes_fail_with_both_shapes() {
    let e = ni_check_shape_eq(vec![2, 3], vec![2, 4], "Output shape mismatch", "out.shape()", "[nao, nao]").unwrap_err();
    let (expected, actual, msg) = mismatch(e);
    assert_eq!(expected, vec![2, 3]);
    assert_eq!(actual, vec![2, 4]);
    assert_eq!(msg, "Output shape mismatch (expected: out.shape(), actual: [nao, nao])");
}

#[test]
fn different_lengths_fail() {
    assert!(ni_check_shape_eq(vec![2], vec![2, 1], "m", "a", "b").is_err());
}

#[test]
fn condition_failure_has_empty_shapes() {
    assert!(ni_check_shape_cond(true, "m", "c").is_ok());
    let (expected, actual, msg) = mismatch(ni_check_shape_cond(false, "Buffer length insufficient", "buf.len() >= n").unwrap_err());
    assert!(expected.is_empty());
    assert!(actual.is_empty());
    assert_eq!(msg, "Buffer length insufficient (condition: buf.len() >= n)");
}

#[test]
fn message_error() {
    match ni_error("oops") {
        NIError::Message(m) => assert_eq!(m, "oops"),
        _ => panic!("expected a message error"),
    }
}

#[test]
fn shape_equality() {
    assert!(shape_eq(&[1, 2, 3], &[1, 2, 3]));
    assert!(!shape_eq(&[1, 2, 3], &[1, 2]));
    assert!(!shape_eq(&[1, 2, 3], &[1, 2, 4]));
    assert!(shape_eq(&[], &[]));
}

#[test]
fn into_usize_vec_forms() {
    assert_eq!(5usize.into_usize_vec(), vec![5]);
    let s: &[usize] = &[1, 2];
    assert_eq!(s.into_usize_vec(), vec![1, 2]);
    assert_eq!([3usize, 4, 5].into_usize_vec(), vec![3, 4, 5]);
    assert_eq!(vec![7usize].into_usize_vec(), vec![7]);
}
