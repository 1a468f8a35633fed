use dft_numint::batches::{grid_batches, parenh_grid_chunks, NGRIDS_CHUNK};
use dft_numint::transpose::transpose_inplace;

#[test]
fn transpose_column_major_block() {
    // [m = 2, n = 3] column-major: element (r, c) at r + 2 * c
    let mut v = vec![0, 1, 2, 3, 4, 5, 99];
    transpose_inplace(&mut v, 2, 3);
    // [3, 2] column-major: element (c, r) at c + 3 * r
    assert_eq!(v, vec![0, 2, 4, 1, 3, 5, 99]);
}

#[test]
fn transpose_twice_restores() {
    let orig: Vec<u32> = (0..24).collect();
    let mut v = orig.clone();
    transpose_inplace(&mut v, 4, 6);
    assert_ne!(v, orig);
    transpose_inplace(&mut v, 6, 4);
    assert_eq!(v, orig);
}

#[test]
fn transpose_degenerate() {
    let mut v = vec![1, 2, 3];
    transpose_inplace(&mut v, 0, 5);
    assert_eq!(v, vec![1, 2, 3]);
    transpose_inplace(&mut v, 1, 3);
    assert_eq!(v, vec![1, 2, 3]);
}

#[test]
fn batches_cover_grid() {
    assert_eq!(grid_batches(10, 4), vec![(0, 4), (4, 8), (8, 10)]);
    assert_eq!(grid_batches(8, 4), vec![(0, 4), (4, 8)]);
    assert_eq!(grid_batches(0, 4), vec![]);
    assert_eq!(grid_batches(3, 10), vec![(0, 3)]);
    assert_eq!(grid_batches(usize::MAX, usize::MAX - 1), vec![(0, usize::MAX - 1), (usize::MAX - 1, usize::MAX)]);
}

#[test]
fn batches_match_step_by() {
    for n in 0..40usize {
        for size in 1..9usize {
            let expected: Vec<(usize, usize)> = (0..n).step_by(size).map(|s| (s, (s + size).min(n))).collect();
            assert_eq!(grid_batches(n, size), expected);
        }
    }
}

#[test]
fn parenh_chunks() {
    assert_eq!(NGRIDS_CHUNK, 384);
    let c = parenh_grid_chunks(1000);
    assert_eq!(c, vec![(0, 384), (384, 768), (768, 1000)]);
    assert_eq!(c.len(), 1000usize.div_ceil(384));
}
