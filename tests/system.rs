use spinwave::matrix::DenseMatrix;
use spinwave::system::{
    check_couplings, check_field, check_positions, check_q_vectors, check_rotations,
    validate_system, Coupling, InputShapeError, MagneticField,
};

fn square(n: usize) -> DenseMatrix<f64> {
    DenseMatrix::filled(n, n, 0.0)
}

fn coupling(i: usize, j: usize) -> Coupling<f64, f64> {
    Coupling::new(i, j, square(3), vec![1.0, 0.0, 0.0])
}

fn q_points() -> Vec<Vec<f64>> {
    vec![vec![0.0, 0.0, 0.0], vec![0.5, 0.0, 0.0]]
}

#[test]
fn coupling_new_keeps_its_fields() {
    let c = coupling(0, 1);
    assert_eq!(c.index1, 0);
    assert_eq!(c.index2, 1);
    assert_eq!(c.inter_site_vector, vec![1.0, 0.0, 0.0]);
    assert_eq!(c.matrix.n_rows(), 3);
}

#[test]
fn magnetic_field_new_keeps_its_fields() {
    let f = MagneticField::new(vec![0.0, 0.0, 1.0], vec![square(3), square(3)]);
    assert_eq!(f.vector, vec![0.0, 0.0, 1.0]);
    assert_eq!(f.g_tensors.len(), 2);
}

#[test]
fn well_shaped_system_passes() {
    let rotations = vec![square(3), square(3)];
    let field = Some(MagneticField::new(vec![0.0, 0.0, 1.0], vec![square(3), square(3)]));
    let positions = Some(vec![vec![0.0, 0.0, 0.0], vec![0.5, 0.5, 0.0]]);
    let r = validate_system(
        &rotations,
        &vec![1.0, 1.0],
        &q_points(),
        &vec![coupling(0, 1), coupling(1, 0)],
        &field,
        &positions,
    );
    assert_eq!(r, Ok(()));
}

#[test]
fn system_without_field_or_positions_passes() {
    let r = validate_system(
        &vec![square(3)],
        &vec![0.5],
        &q_points(),
        &vec![coupling(0, 0)],
        &None,
        &None::<Vec<Vec<f64>>>,
    );
    assert_eq!(r, Ok(()));
}

#[test]
fn empty_system_passes() {
    let r = validate_system::<f64, f64>(&vec![], &vec![], &vec![], &vec![], &None, &None);
    assert_eq!(r, Ok(()));
}

#[test]
fn rotation_that_is_not_3x3_is_rejected() {
    assert_eq!(
        check_rotations(&vec![square(3), square(2), square(4)]),
        Err(InputShapeError::RotationShape { site: 1 })
    );
    let wide = DenseMatrix::filled(3, 2, 0.0);
    assert_eq!(
        check_rotations(&vec![wide]),
        Err(InputShapeError::RotationShape { site: 0 })
    );
}

#[test]
fn magnitude_count_must_match_sites() {
    let r = validate_system(
        &vec![square(3), square(3)],
        &vec![1.0],
        &q_points(),
        &vec![],
        &None,
        &None,
    );
    assert_eq!(
        r,
        Err(InputShapeError::MagnitudeCount { sites: 2, magnitudes: 1 })
    );
}

#[test]
fn q_point_must_have_three_components() {
    assert_eq!(
        check_q_vectors(&vec![vec![0.0, 0.0, 0.0], vec![0.0, 1.0]]),
        Err(InputShapeError::QVectorLength { q_index: 1 })
    );
}

#[test]
fn coupling_site_out_of_range_is_rejected() {
    assert_eq!(
        check_couplings(&vec![coupling(0, 1), coupling(1, 2)], 2),
        Err(InputShapeError::CouplingSite { coupling: 1 })
    );
    assert_eq!(
        check_couplings(&vec![coupling(2, 0)], 2),
        Err(InputShapeError::CouplingSite { coupling: 0 })
    );
}

#[test]
fn coupling_tensor_must_be_3x3() {
    let c = Coupling::new(0, 0, square(2), vec![0.0, 0.0, 0.0]);
    assert_eq!(
        check_couplings(&vec![coupling(0, 0), c], 1),
        Err(InputShapeError::CouplingMatrixShape { coupling: 1 })
    );
}

#[test]
fn coupling_displacement_must_have_three_components() {
    let c = Coupling::new(0, 0, square(3), vec![0.0, 0.0]);
    assert_eq!(
        check_couplings(&vec![c], 1),
        Err(InputShapeError::CouplingVectorLength { coupling: 0 })
    );
}

#[test]
fn field_vector_must_have_three_components() {
    let f = Some(MagneticField::new(vec![0.0, 1.0], vec![square(3)]));
    assert_eq!(check_field(&f, 1), Err(InputShapeError::FieldVectorLength));
}

#[test]
fn one_g_tensor_per_site() {
    let f = Some(MagneticField::new(vec![0.0, 0.0, 1.0], vec![square(3)]));
    assert_eq!(
        check_field(&f, 2),
        Err(InputShapeError::GTensorCount { sites: 2, g_tensors: 1 })
    );
}

#[test]
fn g_tensor_must_be_3x3() {
    let f = Some(MagneticField::new(vec![0.0, 0.0, 1.0], vec![square(3), square(1)]));
    assert_eq!(check_field(&f, 2), Err(InputShapeError::GTensorShape { site: 1 }));
}

#[test]
fn one_position_per_site() {
    let p = Some(vec![vec![0.0, 0.0, 0.0]]);
    assert_eq!(
        check_positions(&p, 3),
        Err(InputShapeError::PositionCount { sites: 3, positions: 1 })
    );
}

#[test]
fn position_must_have_three_components() {
    let p = Some(vec![vec![0.0, 0.0, 0.0], vec![0.0]]);
    assert_eq!(
        check_positions(&p, 2),
        Err(InputShapeError::PositionLength { site: 1 })
    );
}

#[test]
fn first_error_in_check_order_is_reported() {
    // bad rotation, bad magnitude count and bad coupling: the rotation wins
    let r = validate_system(
        &vec![square(2), square(3)],
        &vec![1.0],
        &q_points(),
        &vec![coupling(5, 0)],
        &None,
        &None,
    );
    assert_eq!(r, Err(InputShapeError::RotationShape { site: 0 }));
    // bad q-point before bad coupling
    let r = validate_system(
        &vec![square(3)],
        &vec![1.0],
        &vec![vec![0.0]],
        &vec![coupling(5, 0)],
        &None,
        &None,
    );
    assert_eq!(r, Err(InputShapeError::QVectorLength { q_index: 0 }));
    // bad coupling before bad field and bad positions
    let r = validate_system(
        &vec![square(3)],
        &vec![1.0],
        &q_points(),
        &vec![coupling(0, 3)],
        &Some(MagneticField::new(vec![0.0], vec![])),
        &Some(vec![]),
    );
    assert_eq!(r, Err(InputShapeError::CouplingSite { coupling: 0 }));
    // bad field before bad positions
    let r = validate_system(
        &vec![square(3)],
        &vec![1.0],
        &q_points(),
        &vec![coupling(0, 0)],
        &Some(MagneticField::new(vec![0.0], vec![])),
        &Some(vec![]),
    );
    assert_eq!(r, Err(InputShapeError::FieldVectorLength));
}
