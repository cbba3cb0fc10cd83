use scirs2_core::transpose::{calculate_block_size, simd_transpose_blocked, Matrix};

fn matrix_from_fn<T, F: Fn(usize, usize) -> T>(rows: usize, cols: usize, f: F) -> Matrix<T> {
    let mut data = Vec::with_capacity(rows * cols);
    for i in 0..rows {
        for j in 0..cols {
            data.push(f(i, j));
        }
    }
    Matrix::from_shape_vec(rows, cols, data).expect("shape matches")
}

#[test]
fn test_blocked_transpose_f32_small() {
    let a = Matrix::from_shape_vec(2, 3, vec![1.0f32, 2.0, 3.0, 4.0, 5.0, 6.0]).unwrap();
    let result = simd_transpose_blocked(&a);
    let expected = Matrix::from_shape_vec(3, 2, vec![1.0f32, 4.0, 2.0, 5.0, 3.0, 6.0]).unwrap();
    assert_eq!(result.dim(), expected.dim());
    assert_eq!(result.into_vec(), expected.into_vec());
}

#[test]
fn test_blocked_transpose_f64_small() {
    let a = Matrix::from_shape_vec(2, 3, vec![1.0f64, 2.0, 3.0, 4.0, 5.0, 6.0]).unwrap();
    let result = simd_transpose_blocked(&a);
    let expected = Matrix::from_shape_vec(3, 2, vec![1.0f64, 4.0, 2.0, 5.0, 3.0, 6.0]).unwrap();
    assert_eq!(result.dim(), expected.dim());
    assert_eq!(result.into_vec(), expected.into_vec());
}

#[test]
fn test_blocked_transpose_f32_large() {
    let size = 128;
    let a: Matrix<f32> = matrix_from_fn(size, size, |i, j| (i * size + j) as f32);
    let result = simd_transpose_blocked(&a);
    for i in 0..size {
        for j in 0..size {
            assert_eq!(result.get(j, i), a.get(i, j));
        }
    }
}

#[test]
fn test_blocked_transpose_f64_large() {
    let size = 128;
    let a: Matrix<f64> = matrix_from_fn(size, size, |i, j| (i * size + j) as f64);
    let result = simd_transpose_blocked(&a);
    for i in 0..size {
        for j in 0..size {
            assert_eq!(result.get(j, i), a.get(i, j));
        }
    }
}

#[test]
fn test_blocked_transpose_rectangular() {
    let a: Matrix<f32> = matrix_from_fn(100, 200, |i, j| (i * 200 + j) as f32);
    let result = simd_transpose_blocked(&a);
    assert_eq!(result.dim(), (200, 100));
    for i in 0..100 {
        for j in 0..200 {
            assert_eq!(result.get(j, i), a.get(i, j));
        }
    }
}

#[test]
fn test_block_size_calculation() {
    // f32: sqrt(32768 / 2 / 4) ≈ 64
    let block_f32 = calculate_block_size(4);
    assert!(block_f32 >= 8 && block_f32 <= 64);

    // f64: sqrt(32768 / 2 / 8) ≈ 45
    let block_f64 = calculate_block_size(8);
    assert!(block_f64 >= 8 && block_f64 <= 64);
}

#[test]
fn block_size_exact_values() {
    assert_eq!(calculate_block_size(4), 64);
    assert_eq!(calculate_block_size(8), 45);
    assert_eq!(calculate_block_size(32), 22);
    assert_eq!(calculate_block_size(1), 64);
    assert_eq!(calculate_block_size(256), 8);
    assert_eq!(calculate_block_size(1024), 8);
    assert_eq!(calculate_block_size(100_000), 8);
    // 16384 / 100 = 163, whose root is 12 (144 <= 163 < 169)
    assert_eq!(calculate_block_size(100), 12);
}

#[test]
fn block_size_matches_float_root() {
    for size in 1..2000usize {
        let optimal = ((32768 / 2) / size) as f64;
        let expected = (optimal.sqrt() as usize).clamp(8, 64);
        assert_eq!(calculate_block_size(size), expected);
    }
}

#[test]
fn shape_mismatch_is_refused() {
    assert!(Matrix::from_shape_vec(2, 3, vec![1u8, 2, 3, 4, 5]).is_none());
    assert!(Matrix::from_shape_vec(usize::MAX, 2, vec![1u8]).is_none());
    assert!(Matrix::from_shape_vec(0, 7, Vec::<u8>::new()).is_some());
}

#[test]
fn transpose_of_empty_swaps_shape() {
    let a: Matrix<u32> = Matrix::from_shape_vec(0, 5, Vec::new()).unwrap();
    let t = simd_transpose_blocked(&a);
    assert_eq!(t.dim(), (5, 0));
    assert!(t.into_vec().is_empty());
}

#[test]
fn transpose_twice_is_identity() {
    // 70 x 90 takes the tiled path with tiles that do not divide the shape.
    let a: Matrix<u64> = matrix_from_fn(70, 90, |i, j| (i * 1000 + j) as u64);
    let t = simd_transpose_blocked(&a);
    assert_eq!(t.dim(), (90, 70));
    let back = simd_transpose_blocked(&t);
    assert_eq!(back.dim(), (70, 90));
    let expected = matrix_from_fn(70, 90, |i, j| (i * 1000 + j) as u64);
    assert_eq!(back.into_vec(), expected.into_vec());
}

#[test]
fn transpose_at_blocking_threshold() {
    // 64 x 64 = 4096 entries: first size that is tiled.
    let a: Matrix<u8> = matrix_from_fn(64, 64, |i, j| ((i * 7 + j * 3) % 251) as u8);
    let t = simd_transpose_blocked(&a);
    for i in 0..64 {
        for j in 0..64 {
            assert_eq!(t.get(j, i), a.get(i, j));
        }
    }
    // 63 x 65 = 4095 entries: transposed directly.
    let b: Matrix<u8> = matrix_from_fn(63, 65, |i, j| ((i * 5 + j) % 253) as u8);
    let u = simd_transpose_blocked(&b);
    assert_eq!(u.dim(), (65, 63));
    for i in 0..63 {
        for j in 0..65 {
            assert_eq!(u.get(j, i), b.get(i, j));
        }
    }
}

#[test]
fn transpose_wide_elements_use_small_tiles() {
    // 32-byte elements give tiles of side 22; 50 x 100 is tiled unevenly.
    let a: Matrix<[u64; 4]> = matrix_from_fn(50, 100, |i, j| [i as u64, j as u64, 0, 1]);
    let t = simd_transpose_blocked(&a);
    assert_eq!(t.dim(), (100, 50));
    for i in 0..50 {
        for j in 0..100 {
            assert_eq!(t.get(j, i), [i as u64, j as u64, 0, 1]);
        }
    }
}
