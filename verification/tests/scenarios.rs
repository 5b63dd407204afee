//! End-to-end scenarios: a reference interpreter consumes the resolved
//! parameter blocks exactly as a layout-aware foreign routine would — reading
//! operands through (order, transpose, leading dimension) and nothing else —
//! so a wrong flag or stride in a plan shows up as a wrong number here.

use blas_dispatch::buffer::gather_dense;
use blas_dispatch::Blas;
use blas_dispatch::layout::{MatLayout, Order, Transpose, VecLayout};
use blas_dispatch::matmul::{
    resolve_gemm, resolve_gemm_fresh, resolve_special, GemmParams, MatrixType, Side, SpecialPlan,
    Triangle, TrmmParams,
};
use blas_dispatch::matvec::resolve_vec_pair;
use blas_dispatch::scalar::{DotCallStyle, ScalarKind};

fn row_major(rows: usize, cols: usize) -> MatLayout {
    MatLayout { rows, cols, row_stride: cols, col_stride: 1 }
}

fn col_major(rows: usize, cols: usize) -> MatLayout {
    MatLayout { rows, cols, row_stride: 1, col_stride: rows }
}

/// Offset at which a foreign routine reads logical element (i, j) of an
/// operand, per its documented parameter semantics.
fn read_at(order: Order, t: Transpose, ld: i32, i: usize, j: usize) -> usize {
    let ld = ld as usize;
    match order {
        Order::RowMajor => match t {
            Transpose::NoTrans => i * ld + j,
            _ => j * ld + i,
        },
        Order::ColMajor => match t {
            Transpose::NoTrans => i + j * ld,
            _ => j + i * ld,
        },
    }
}

/// Reference general multiply: destination = alpha * op(A) * op(B) +
/// beta * destination, driven purely by the resolved parameter block.
fn ref_gemm(p: &GemmParams, alpha: f64, a: &[f64], b: &[f64], beta: f64, c: &mut [f64]) {
    let (m, n, k) = (p.m as usize, p.n as usize, p.k as usize);
    for i in 0..m {
        for j in 0..n {
            let mut acc = 0.0;
            for l in 0..k {
                acc += a[read_at(p.order, p.transa, p.lda, i, l)]
                    * b[read_at(p.order, p.transb, p.ldb, l, j)];
            }
            let ci = read_at(p.order, Transpose::NoTrans, p.ldc, i, j);
            c[ci] = alpha * acc + beta * c[ci];
        }
    }
}

/// Reference in-place triangular multiply (left side): B = alpha * tri(A) * B,
/// where tri zero-fills the triangle the parameters exclude.
fn ref_trmm_left(p: &TrmmParams, alpha: f64, a: &[f64], b: &mut [f64]) {
    assert_eq!(p.side, Side::Left);
    let (m, n) = (p.m as usize, p.n as usize);
    let a_at = |i: usize, l: usize| -> f64 {
        let kept = match p.uplo {
            Triangle::Upper => l >= i,
            Triangle::Lower => l <= i,
        };
        if kept {
            a[read_at(p.order, p.transa, p.lda, i, l)]
        } else {
            0.0
        }
    };
    let mut out = vec![0.0; b.len()];
    for i in 0..m {
        for j in 0..n {
            let mut acc = 0.0;
            for l in 0..m {
                acc += a_at(i, l) * b[read_at(p.order, Transpose::NoTrans, p.ldb, l, j)];
            }
            out[read_at(p.order, Transpose::NoTrans, p.ldb, i, j)] = alpha * acc;
        }
    }
    b.copy_from_slice(&out);
}

#[test]
fn test_gemm_concrete_row_major() {
    // A = [[1,2],[3,4]], B = [[5,6],[7,8]], alpha 1, beta 0.
    let a = vec![1.0, 2.0, 3.0, 4.0];
    let b = vec![5.0, 6.0, 7.0, 8.0];
    let mut c = vec![0.0; 4];
    let p = resolve_gemm(&row_major(2, 2), &row_major(2, 2), &row_major(2, 2)).unwrap();
    ref_gemm(&p, 1.0, &a, &b, 0.0, &mut c);
    assert_eq!(c, vec![19.0, 22.0, 43.0, 50.0]);
}

#[test]
fn test_gemm_concrete_col_major_storage() {
    // The same matrices stored column-major: identical numeric result.
    let a = vec![1.0, 3.0, 2.0, 4.0];
    let b = vec![5.0, 7.0, 6.0, 8.0];
    let mut c = vec![0.0; 4];
    let p = resolve_gemm(&col_major(2, 2), &col_major(2, 2), &col_major(2, 2)).unwrap();
    ref_gemm(&p, 1.0, &a, &b, 0.0, &mut c);
    // c is column-major: [[19,22],[43,50]] stored as columns.
    assert_eq!(c, vec![19.0, 43.0, 22.0, 50.0]);
}

#[test]
fn test_gemm_storage_independence_mixed() {
    // Row-major A with column-major B, destination row-major: the logical
    // result matches the all-row-major computation exactly.
    let a = vec![1.0, 2.0, 3.0, 4.0];
    let b_cm = vec![5.0, 7.0, 6.0, 8.0];
    let mut c = vec![0.0; 4];
    let p = resolve_gemm(&row_major(2, 2), &col_major(2, 2), &row_major(2, 2)).unwrap();
    ref_gemm(&p, 1.0, &a, &b_cm, 0.0, &mut c);
    assert_eq!(c, vec![19.0, 22.0, 43.0, 50.0]);
}

#[test]
fn test_gemm_subview_storage() {
    // A lives in the top-left corner of a 3x4 row-major backing store.
    let backing = vec![
        1.0, 2.0, -1.0, -1.0,
        3.0, 4.0, -1.0, -1.0,
        -1.0, -1.0, -1.0, -1.0,
    ];
    let a_view = MatLayout { rows: 2, cols: 2, row_stride: 4, col_stride: 1 };
    let b = vec![5.0, 6.0, 7.0, 8.0];
    let mut c = vec![0.0; 4];
    let p = resolve_gemm(&a_view, &row_major(2, 2), &row_major(2, 2)).unwrap();
    ref_gemm(&p, 1.0, &backing, &b, 0.0, &mut c);
    assert_eq!(c, vec![19.0, 22.0, 43.0, 50.0]);
}

#[test]
fn test_round_trip_write_then_accumulate_matches_fresh() {
    // write, then accumulate with an explicit destination scale of zero on a
    // pre-filled unrelated destination, reproduces produce-fresh.
    let a = vec![1.0, 2.0, 3.0, 4.0];
    let b = vec![5.0, 6.0, 7.0, 8.0];
    let al = row_major(2, 2);
    let bl = row_major(2, 2);

    let fresh_params = resolve_gemm_fresh(&al, &bl).unwrap();
    let mut fresh = vec![0.0; 4];
    ref_gemm(&fresh_params, 1.0, &a, &b, 0.0, &mut fresh);

    let write_params = resolve_gemm(&al, &bl, &row_major(2, 2)).unwrap();
    let mut written = vec![9.0, -3.0, 7.5, 0.25];  // unrelated prior content
    ref_gemm(&write_params, 1.0, &a, &b, 0.0, &mut written);
    assert_eq!(written, fresh);

    let mut accumulated = vec![-2.0, 11.0, 0.5, 6.0];
    ref_gemm(&write_params, 1.0, &a, &b, 0.0, &mut accumulated);
    assert_eq!(accumulated, fresh);
}

#[test]
fn test_accumulate_beta_one_adds_product() {
    // accumulate with the multiplicative identity equals computing the
    // product separately and adding it to the prior destination contents.
    let a = vec![1.0, 2.0, 3.0, 4.0];
    let b = vec![5.0, 6.0, 7.0, 8.0];
    let al = row_major(2, 2);
    let bl = row_major(2, 2);
    let p = resolve_gemm(&al, &bl, &row_major(2, 2)).unwrap();

    let prior = vec![10.0, 20.0, 30.0, 40.0];
    let mut accumulated = prior.clone();
    ref_gemm(&p, 1.0, &a, &b, 1.0, &mut accumulated);

    let mut product = vec![0.0; 4];
    ref_gemm(&p, 1.0, &a, &b, 0.0, &mut product);
    let separate: Vec<f64> = prior.iter().zip(product.iter()).map(|(x, y)| x + y).collect();
    assert_eq!(accumulated, separate);
}

#[test]
fn test_dot_concrete_real() {
    // x = [1,2], y = [2,4]: dot(x, y) = 10.
    let x = vec![1.0, 2.0];
    let y = vec![2.0, 4.0];
    let p = resolve_vec_pair(
        &VecLayout { len: 2, stride: 1 },
        &VecLayout { len: 2, stride: 1 },
    )
    .unwrap();
    assert_eq!(ScalarKind::RealDouble.dot_call_style(), DotCallStyle::DirectReturn);
    let mut dot = 0.0;
    for i in 0..p.n as usize {
        dot += x[i * p.incx as usize] * y[i * p.incy as usize];
    }
    assert_eq!(dot, 10.0);
}

#[test]
fn test_dot_concrete_complex() {
    // Complex values as (re, im) pairs: x = [1+0i, 2+0i], y = [0+2i, 0+4i].
    let x = [(1.0, 0.0), (2.0, 0.0)];
    let y = [(0.0, 2.0), (0.0, 4.0)];
    let p = resolve_vec_pair(
        &VecLayout { len: 2, stride: 1 },
        &VecLayout { len: 2, stride: 1 },
    )
    .unwrap();
    // Complex kinds must go through the pointer-output routine.
    assert_eq!(ScalarKind::ComplexDouble.dot_call_style(), DotCallStyle::SubPointer);

    let mul = |a: (f64, f64), b: (f64, f64)| (a.0 * b.0 - a.1 * b.1, a.0 * b.1 + a.1 * b.0);
    let conj = |a: (f64, f64)| (a.0, -a.1);

    let mut dotu = (0.0, 0.0);
    let mut dotc = (0.0, 0.0);
    for i in 0..p.n as usize {
        let xi = x[i * p.incx as usize];
        let yi = y[i * p.incy as usize];
        let u = mul(xi, yi);
        let c = mul(conj(xi), yi);
        dotu = (dotu.0 + u.0, dotu.1 + u.1);
        dotc = (dotc.0 + c.0, dotc.1 + c.1);
    }
    assert_eq!(dotu, (0.0, 10.0));
    assert_eq!(dotc, (0.0, 10.0));

    // With a genuinely complex x the conjugated dot differs by the sign of
    // the imaginary part contributed by x.
    let x2 = [(0.0, 1.0), (0.0, 2.0)];
    let y2 = [(2.0, 0.0), (4.0, 0.0)];
    let mut dotu2 = (0.0, 0.0);
    let mut dotc2 = (0.0, 0.0);
    for i in 0..2 {
        let u = mul(x2[i], y2[i]);
        let c = mul(conj(x2[i]), y2[i]);
        dotu2 = (dotu2.0 + u.0, dotu2.1 + u.1);
        dotc2 = (dotc2.0 + c.0, dotc2.1 + c.1);
    }
    assert_eq!(dotu2, (0.0, 10.0));
    assert_eq!(dotc2, (0.0, -10.0));
}

#[test]
fn test_triangular_special_path() {
    // Upper-triangular A = [[2,3],[0,4]] against B = [[1,2],[3,4]]: the
    // two-copy plan must match a dense multiply with the zero-filled
    // triangular interpretation of A.
    let a = vec![2.0, 3.0, 0.0, 4.0];
    let b = vec![1.0, 2.0, 3.0, 4.0];
    let al = row_major(2, 2);
    let bl = row_major(2, 2);

    let plan = match resolve_special(&al, &bl, Side::Left, MatrixType::Tri, Triangle::Upper)
        .unwrap()
    {
        SpecialPlan::Triangular(t) => t,
        other => panic!("expected the triangular plan, got {:?}", other),
    };

    // Step one: copy B into the dense working buffer.
    let mut work = gather_dense(&b, &bl);
    assert_eq!(work, b);  // B was already dense row-major

    // Step two: in-place triangular multiply on the working buffer.
    ref_trmm_left(&plan.trmm, 1.0, &a, &mut work);

    // Step three: copy the working buffer into the fresh result.
    let result = gather_dense(&work, &plan.work);

    // Dense reference: zero-filled triangular interpretation of A times B.
    let a_tri = vec![2.0, 3.0, 0.0, 4.0];
    let p = resolve_gemm(&al, &bl, &row_major(2, 2)).unwrap();
    let mut dense = vec![0.0; 4];
    ref_gemm(&p, 1.0, &a_tri, &b, 0.0, &mut dense);

    assert_eq!(result, dense);
    assert_eq!(result, vec![11.0, 16.0, 12.0, 16.0]);
}

#[test]
fn test_planner_entry_point() {
    // The fluent entry point produces the same fresh-output plan and result.
    let a = vec![1.0, 2.0, 3.0, 4.0];
    let b = vec![5.0, 6.0, 7.0, 8.0];
    let call = Blas.matmul(row_major(2, 2), row_major(2, 2)).eval().unwrap();
    let mut c = vec![0.0; 4];
    ref_gemm(&call.params, 1.0, &a, &b, 0.0, &mut c);
    assert_eq!(c, vec![19.0, 22.0, 43.0, 50.0]);
}

#[test]
fn test_gather_dense_from_views() {
    // Column-major storage of [[1,2,3],[4,5,6]].
    let data = vec![1.0, 4.0, 2.0, 5.0, 3.0, 6.0];
    let l = col_major(2, 3);
    let dense = gather_dense(&data, &l);
    assert_eq!(dense, vec![1.0, 2.0, 3.0, 4.0, 5.0, 6.0]);

    // A 2x2 window into a 3x4 row-major store, offset handled by the caller.
    let backing = vec![
        7.0, 8.0, 0.0, 0.0,
        9.0, 10.0, 0.0, 0.0,
        0.0, 0.0, 0.0, 0.0,
    ];
    let window = MatLayout { rows: 2, cols: 2, row_stride: 4, col_stride: 1 };
    assert_eq!(gather_dense(&backing, &window), vec![7.0, 8.0, 9.0, 10.0]);
}
