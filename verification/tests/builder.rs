use clarabel_bridge::matrix::{build_csc, build_quadratic, zero_matrix, BuildError, SparseMatrix};

fn bits(v: &[f64]) -> Vec<u64> {
    v.iter().map(|x| x.to_bits()).collect()
}

fn check_csc_shape(m: &SparseMatrix) {
    // column pointer has one entry per column plus one, starts at zero,
    // is non-decreasing, and closes at the number of stored values
    assert_eq!(m.col_ptr.len(), m.cols + 1);
    assert_eq!(m.col_ptr[0], 0);
    for c in 0..m.cols {
        assert!(m.col_ptr[c] <= m.col_ptr[c + 1]);
    }
    assert_eq!(m.col_ptr[m.cols], m.values.len());
    assert_eq!(m.row_idx.len(), m.values.len());
    for &r in m.row_idx.iter() {
        assert!(r < m.rows);
    }
}

#[test]
fn valid_triplets_build_well_formed_matrix() {
    // 3x2, entries (0,0)=1.0, (2,0)=2.5, (1,1)=-3.0
    let m = build_csc(3, 2, vec![0, 2, 3], vec![0, 2, 1], bits(&[1.0, 2.5, -3.0])).unwrap();
    check_csc_shape(&m);
    assert_eq!(m.rows, 3);
    assert_eq!(m.cols, 2);
    assert_eq!(m.col_ptr, vec![0, 2, 3]);
    assert_eq!(m.row_idx, vec![0, 2, 1]);
    assert_eq!(m.values, bits(&[1.0, 2.5, -3.0]));
}

#[test]
fn identity_matrix_builds() {
    let m = build_csc(2, 2, vec![0, 1, 2], vec![0, 1], bits(&[1.0, 1.0])).unwrap();
    check_csc_shape(&m);
    assert_eq!(m.values.len(), 2);
}

#[test]
fn empty_quadratic_values_give_zero_matrix() {
    // index arrays are garbage on purpose: an empty value array must win
    let m = build_quadratic(4, vec![7, -1, 99], vec![123, -5], Vec::new()).unwrap();
    check_csc_shape(&m);
    assert_eq!(m.rows, 4);
    assert_eq!(m.cols, 4);
    assert_eq!(m.values.len(), 0);
    assert_eq!(m.col_ptr, vec![0, 0, 0, 0, 0]);
}

#[test]
fn nonempty_quadratic_values_build_normally() {
    let m = build_quadratic(2, vec![0, 1, 2], vec![0, 1], bits(&[2.0, 2.0])).unwrap();
    check_csc_shape(&m);
    assert_eq!(m.values, bits(&[2.0, 2.0]));
}

#[test]
fn wrong_col_ptr_length_is_malformed() {
    let r = build_csc(2, 2, vec![0, 1], vec![0], bits(&[1.0]));
    assert_eq!(r.unwrap_err(), BuildError::MalformedMatrix);
}

#[test]
fn mismatched_row_and_value_lengths_are_malformed() {
    let r = build_csc(2, 2, vec![0, 1, 2], vec![0, 1], bits(&[1.0]));
    assert_eq!(r.unwrap_err(), BuildError::MalformedMatrix);
}

#[test]
fn decreasing_col_ptr_is_malformed() {
    let r = build_csc(2, 2, vec![0, 2, 1], vec![0, 1], bits(&[1.0]));
    assert_eq!(r.unwrap_err(), BuildError::MalformedMatrix);
}

#[test]
fn negative_row_index_is_malformed() {
    let r = build_csc(2, 2, vec![0, 1, 2], vec![0, -1], bits(&[1.0, 1.0]));
    assert_eq!(r.unwrap_err(), BuildError::MalformedMatrix);
}

#[test]
fn out_of_range_row_index_is_malformed() {
    let r = build_csc(2, 2, vec![0, 1, 2], vec![0, 2], bits(&[1.0, 1.0]));
    assert_eq!(r.unwrap_err(), BuildError::MalformedMatrix);
}

#[test]
fn col_ptr_not_starting_at_zero_is_malformed() {
    let r = build_csc(2, 2, vec![1, 1, 2], vec![0, 1], bits(&[1.0, 1.0]));
    assert_eq!(r.unwrap_err(), BuildError::MalformedMatrix);
}

#[test]
fn col_ptr_not_closing_at_nnz_is_malformed() {
    let r = build_csc(2, 2, vec![0, 1, 1], vec![0, 1], bits(&[1.0, 1.0]));
    assert_eq!(r.unwrap_err(), BuildError::MalformedMatrix);
}

#[test]
fn zero_matrix_has_empty_columns() {
    let m = zero_matrix(5, 3);
    check_csc_shape(&m);
    assert_eq!(m.rows, 5);
    assert_eq!(m.cols, 3);
    assert_eq!(m.values.len(), 0);
    assert_eq!(m.col_ptr, vec![0, 0, 0, 0]);
}

#[test]
fn empty_shape_matrix_builds() {
    let m = build_csc(0, 0, vec![0], Vec::new(), Vec::new()).unwrap();
    check_csc_shape(&m);
    assert_eq!(m.values.len(), 0);
}
