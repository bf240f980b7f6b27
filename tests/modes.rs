use spinwave::matrix::DenseMatrix;
use spinwave::modes::{apply_signature, branch_tensors, nonincreasing_modes};

#[test]
fn modes_are_put_in_nonincreasing_order() {
    let values = vec![-2.0f64, -1.0, 1.0, 2.0];
    let vectors = DenseMatrix::from_rows(
        vec![
            vec![1.0, 2.0, 3.0, 4.0],
            vec![5.0, 6.0, 7.0, 8.0],
        ],
        4,
    )
    .unwrap();
    let (v, u) = nonincreasing_modes(&values, &vectors);
    assert_eq!(v, vec![2.0, 1.0, -1.0, -2.0]);
    assert_eq!(u.row(0).clone(), vec![4.0, 3.0, 2.0, 1.0]);
    assert_eq!(u.row(1).clone(), vec![8.0, 7.0, 6.0, 5.0]);
}

#[test]
fn branch_tensors_gather_one_entry_per_block() {
    // block (a, b) holds 10 * (3a + b) + m at mode m
    let diagonals: Vec<Vec<i32>> = (0..9).map(|k| (0..4).map(|m| 10 * k + m).collect()).collect();
    let t = branch_tensors(&diagonals, 4);
    assert_eq!(t.len(), 4);
    for m in 0..4usize {
        assert_eq!(t[m].n_rows(), 3);
        assert_eq!(t[m].n_cols(), 3);
        for a in 0..3usize {
            for b in 0..3usize {
                assert_eq!(t[m].get(a, b), 10 * (3 * a as i32 + b as i32) + m as i32);
            }
        }
    }
}

#[test]
fn branch_tensors_of_no_modes() {
    let diagonals: Vec<Vec<i32>> = vec![Vec::new(); 9];
    assert!(branch_tensors(&diagonals, 0).is_empty());
}

#[test]
fn signature_negates_the_second_half_of_the_rows() {
    let k = DenseMatrix::from_rows(
        vec![vec![1, 2, 3, 4], vec![5, 6, 7, 8], vec![9, 10, 11, 12], vec![13, 14, 15, 16]],
        4,
    )
    .unwrap();
    let gk = apply_signature(&k, 2, |x: i32| -x);
    assert_eq!(gk.row(0).clone(), vec![1, 2, 3, 4]);
    assert_eq!(gk.row(1).clone(), vec![5, 6, 7, 8]);
    assert_eq!(gk.row(2).clone(), vec![-9, -10, -11, -12]);
    assert_eq!(gk.row(3).clone(), vec![-13, -14, -15, -16]);
}
