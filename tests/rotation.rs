use spinwave::matrix::DenseMatrix;
use spinwave::rotation::get_rotation_components;

#[test]
fn rotation_components_of_identity_frame() {
    // complex entries as (re, im) pairs; x + i y
    let one = (1i64, 0i64);
    let zero = (0i64, 0i64);
    let r = DenseMatrix::from_rows(
        vec![vec![one, zero, zero], vec![zero, one, zero], vec![zero, zero, one]],
        3,
    )
    .unwrap();
    let (z, eta) =
        get_rotation_components(&vec![r], |x: (i64, i64), y: (i64, i64)| (x.0 - y.1, x.1 + y.0));
    assert_eq!(z, vec![vec![(1, 0), (0, 1), (0, 0)]]);
    assert_eq!(eta, vec![vec![(0, 0), (0, 0), (1, 0)]]);
}

#[test]
fn rotation_components_per_site() {
    let r1 = DenseMatrix::from_rows(vec![vec![1, 2, 3], vec![4, 5, 6], vec![7, 8, 9]], 3).unwrap();
    let r2 = DenseMatrix::from_rows(vec![vec![0, 0, 1], vec![0, 1, 0], vec![1, 0, 0]], 3).unwrap();
    // with a real stand-in for x + i y: x + 10 y
    let (z, eta) = get_rotation_components(&vec![r1, r2], |x: i32, y: i32| x + 10 * y);
    assert_eq!(z, vec![vec![21, 54, 87], vec![0, 10, 1]]);
    assert_eq!(eta, vec![vec![3, 6, 9], vec![1, 0, 0]]);
}

#[test]
fn rotation_components_of_no_sites() {
    let (z, eta) = get_rotation_components(&Vec::<DenseMatrix<i32>>::new(), |x: i32, y: i32| x + y);
    assert!(z.is_empty());
    assert!(eta.is_empty());
}
