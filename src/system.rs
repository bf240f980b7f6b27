//! The description of a magnetic system (sites, couplings, an optional field
//! and optional site positions) and the check of its shapes, made once before
//! any per-q work.
//!
//! The types are generic over the number types: `S` for the (complex)
//! entries of matrices and field vectors, `R` for real coordinates.
use vstd::prelude::*;
use crate::matrix::DenseMatrix;

verus! {

/// A coupling between the sites `index1` and `index2`: a 3x3 exchange /
/// anisotropy tensor and the lattice displacement between the two sites.
pub struct Coupling<S, R> {
    pub index1: usize,
    pub index2: usize,
    pub matrix: DenseMatrix<S>,
    pub inter_site_vector: Vec<R>,
}

impl<S, R> Coupling<S, R> {
    pub fn new(index1: usize, index2: usize, matrix: DenseMatrix<S>, inter_site_vector: Vec<R>) -> (c:
        Self)
        ensures
            c.index1 == index1,
            c.index2 == index2,
            c.matrix == matrix,
            c.inter_site_vector == inter_site_vector,
    {
        Coupling { index1, index2, matrix, inter_site_vector }
    }
}

/// An external magnetic field: its vector and one 3x3 g-tensor per site.
pub struct MagneticField<S> {
    pub vector: Vec<S>,
    pub g_tensors: Vec<DenseMatrix<S>>,
}

impl<S> MagneticField<S> {
    pub fn new(vector: Vec<S>, g_tensors: Vec<DenseMatrix<S>>) -> (f: Self)
        ensures
            f.vector == vector,
            f.g_tensors == g_tensors,
    {
        MagneticField { vector, g_tensors }
    }
}

/// What is wrong with the shape of the input; found before any per-q work.
#[derive(Debug, Clone, Copy, PartialEq, Eq)]
pub enum InputShapeError {
    /// The rotation of this site is not 3x3.
    RotationShape { site: usize },
    /// The number of magnitudes differs from the number of sites.
    MagnitudeCount { sites: usize, magnitudes: usize },
    /// This q-point does not have three components.
    QVectorLength { q_index: usize },
    /// A site index of this coupling is not below the number of sites.
    CouplingSite { coupling: usize },
    /// The tensor of this coupling is not 3x3.
    CouplingMatrixShape { coupling: usize },
    /// The displacement of this coupling does not have three components.
    CouplingVectorLength { coupling: usize },
    /// The field vector does not have three components.
    FieldVectorLength,
    /// The number of g-tensors differs from the number of sites.
    GTensorCount { sites: usize, g_tensors: usize },
    /// The g-tensor of this site is not 3x3.
    GTensorShape { site: usize },
    /// The number of positions differs from the number of sites.
    PositionCount { sites: usize, positions: usize },
    /// The position of this site does not have three components.
    PositionLength { site: usize },
}

/// The first error of the sequence, if any.
pub open spec fn first_error(s: Seq<Option<InputShapeError>>) -> Option<InputShapeError>
    decreases s.len(),
{
    if s.len() == 0 {
        None
    } else if s[0] is Some {
        s[0]
    } else {
        first_error(s.drop_first())
    }
}

/// `a` if it is an error, else `b`.
pub open spec fn either(a: Option<InputShapeError>, b: Option<InputShapeError>) -> Option<
    InputShapeError,
> {
    if a is Some {
        a
    } else {
        b
    }
}

pub open spec fn is_3x3<S: Copy>(m: DenseMatrix<S>) -> bool {
    m.wf() && m.nrows() == 3 && m.ncols() == 3
}

pub open spec fn rotation_errors<S: Copy>(rotations: Seq<DenseMatrix<S>>) -> Seq<
    Option<InputShapeError>,
> {
    Seq::new(
        rotations.len(),
        |i: int|
            if is_3x3(rotations[i]) {
                None
            } else {
                Some(InputShapeError::RotationShape { site: i as usize })
            },
    )
}

pub open spec fn magnitude_error(sites: nat, magnitudes: nat) -> Option<InputShapeError> {
    if sites == magnitudes {
        None
    } else {
        Some(
            InputShapeError::MagnitudeCount { sites: sites as usize, magnitudes: magnitudes as usize },
        )
    }
}

pub open spec fn q_vector_errors<R>(q_vectors: Seq<Vec<R>>) -> Seq<Option<InputShapeError>> {
    Seq::new(
        q_vectors.len(),
        |i: int|
            if q_vectors[i]@.len() == 3 {
                None
            } else {
                Some(InputShapeError::QVectorLength { q_index: i as usize })
            },
    )
}

/// What is wrong with coupling number `k` of a system of `sites` sites.
pub open spec fn coupling_error<S: Copy, R>(c: Coupling<S, R>, k: int, sites: nat) -> Option<
    InputShapeError,
> {
    if !(c.index1 < sites && c.index2 < sites) {
        Some(InputShapeError::CouplingSite { coupling: k as usize })
    } else if !is_3x3(c.matrix) {
        Some(InputShapeError::CouplingMatrixShape { coupling: k as usize })
    } else if c.inter_site_vector@.len() != 3 {
        Some(InputShapeError::CouplingVectorLength { coupling: k as usize })
    } else {
        None
    }
}

pub open spec fn coupling_errors<S: Copy, R>(couplings: Seq<Coupling<S, R>>, sites: nat) -> Seq<
    Option<InputShapeError>,
> {
    Seq::new(couplings.len(), |k: int| coupling_error(couplings[k], k, sites))
}

pub open spec fn g_tensor_errors<S: Copy>(g_tensors: Seq<DenseMatrix<S>>) -> Seq<
    Option<InputShapeError>,
> {
    Seq::new(
        g_tensors.len(),
        |i: int|
            if is_3x3(g_tensors[i]) {
                None
            } else {
                Some(InputShapeError::GTensorShape { site: i as usize })
            },
    )
}

pub open spec fn field_error<S: Copy>(field: Option<MagneticField<S>>, sites: nat) -> Option<
    InputShapeError,
> {
    match field {
        None => None,
        Some(f) => if f.vector@.len() != 3 {
            Some(InputShapeError::FieldVectorLength)
        } else if f.g_tensors@.len() != sites {
            Some(
                InputShapeError::GTensorCount {
                    sites: sites as usize,
                    g_tensors: f.g_tensors@.len() as usize,
                },
            )
        } else {
            first_error(g_tensor_errors(f.g_tensors@))
        },
    }
}

pub open spec fn position_error<R>(positions: Option<Vec<Vec<R>>>, sites: nat) -> Option<
    InputShapeError,
> {
    match positions {
        None => None,
        Some(p) => if p@.len() != sites {
            Some(
                InputShapeError::PositionCount {
                    sites: sites as usize,
                    positions: p@.len() as usize,
                },
            )
        } else {
            first_error(
                Seq::new(
                    p@.len(),
                    |i: int|
                        if p@[i]@.len() == 3 {
                            None
                        } else {
                            Some(InputShapeError::PositionLength { site: i as usize })
                        },
                ),
            )
        },
    }
}

/// The first shape error of a system, checked in this order: rotations,
/// magnitudes, q-points, couplings, field, positions.
pub open spec fn shape_error<S: Copy, R>(
    rotations: Seq<DenseMatrix<S>>,
    magnitudes: nat,
    q_vectors: Seq<Vec<R>>,
    couplings: Seq<Coupling<S, R>>,
    field: Option<MagneticField<S>>,
    positions: Option<Vec<Vec<R>>>,
) -> Option<InputShapeError> {
    let sites = rotations.len();
    either(
        first_error(rotation_errors(rotations)),
        either(
            magnitude_error(sites, magnitudes),
            either(
                first_error(q_vector_errors(q_vectors)),
                either(
                    first_error(coupling_errors(couplings, sites)),
                    either(field_error(field, sites), position_error(positions, sites)),
                ),
            ),
        ),
    )
}

pub open spec fn as_result(e: Option<InputShapeError>) -> Result<(), InputShapeError> {
    match e {
        None => Ok(()),
        Some(err) => Err(err),
    }
}

/// When the first `k` entries hold no error, the first error is that of the
/// rest of the sequence.
proof fn lemma_first_error_skip(s: Seq<Option<InputShapeError>>, k: int)
    requires
        0 <= k <= s.len(),
        forall|j: int| 0 <= j < k ==> #[trigger] s[j] is None,
    ensures
        first_error(s) == first_error(s.subrange(k, s.len() as int)),
    decreases k,
{
    if k == 0 {
        assert(s.subrange(0, s.len() as int) =~= s);
    } else {
        let t = s.drop_first();
        assert forall|j: int| 0 <= j < k - 1 implies #[trigger] t[j] is None by {
            assert(s[j + 1] is None);
        }
        lemma_first_error_skip(t, k - 1);
        assert(t.subrange(k - 1, t.len() as int) =~= s.subrange(k, s.len() as int));
    }
}

/// The error found at entry `k`, after `k` entries without one, is the first.
proof fn lemma_first_error_at(s: Seq<Option<InputShapeError>>, k: int)
    requires
        0 <= k < s.len(),
        forall|j: int| 0 <= j < k ==> #[trigger] s[j] is None,
        s[k] is Some,
    ensures
        first_error(s) == s[k],
{
    lemma_first_error_skip(s, k);
    assert(s.subrange(k, s.len() as int)[0] == s[k]);
}

/// A sequence without any error has no first error.
proof fn lemma_first_error_none(s: Seq<Option<InputShapeError>>)
    requires
        forall|j: int| 0 <= j < s.len() ==> #[trigger] s[j] is None,
    ensures
        first_error(s) is None,
{
    lemma_first_error_skip(s, s.len() as int);
    assert(s.subrange(s.len() as int, s.len() as int).len() == 0);
}

fn is_3x3_exec<S: Copy>(m: &DenseMatrix<S>) -> (b: bool)
    requires
        m.wf(),
    ensures
        b == is_3x3(*m),
{
    m.n_rows() == 3 && m.n_cols() == 3
}

/// The first rotation that is not 3x3.
pub fn check_rotations<S: Copy>(rotations: &Vec<DenseMatrix<S>>) -> (r: Result<(), InputShapeError>)
    requires
        forall|i: int| 0 <= i < rotations@.len() ==> (#[trigger] rotations@[i]).wf(),
    ensures
        r == as_result(first_error(rotation_errors(rotations@))),
{
    let ghost errs = rotation_errors(rotations@);
    let mut i: usize = 0;
    while i < rotations.len()
        invariant
            i <= rotations@.len(),
            errs == rotation_errors(rotations@),
            forall|i: int| 0 <= i < rotations@.len() ==> (#[trigger] rotations@[i]).wf(),
            forall|j: int| 0 <= j < i ==> #[trigger] errs[j] is None,
        decreases rotations@.len() - i,
    {
        if !is_3x3_exec(&rotations[i]) {
            proof {
                lemma_first_error_at(errs, i as int);
            }
            return Err(InputShapeError::RotationShape { site: i });
        }
        i = i + 1;
    }
    proof {
        lemma_first_error_none(errs);
    }
    Ok(())
}

/// The first q-point that does not have three components.
pub fn check_q_vectors<R>(q_vectors: &Vec<Vec<R>>) -> (r: Result<(), InputShapeError>)
    ensures
        r == as_result(first_error(q_vector_errors(q_vectors@))),
{
    let ghost errs = q_vector_errors(q_vectors@);
    let mut i: usize = 0;
    while i < q_vectors.len()
        invariant
            i <= q_vectors@.len(),
            errs == q_vector_errors(q_vectors@),
            forall|j: int| 0 <= j < i ==> #[trigger] errs[j] is None,
        decreases q_vectors@.len() - i,
    {
        if q_vectors[i].len() != 3 {
            proof {
                lemma_first_error_at(errs, i as int);
            }
            return Err(InputShapeError::QVectorLength { q_index: i });
        }
        i = i + 1;
    }
    proof {
        lemma_first_error_none(errs);
    }
    Ok(())
}

/// The first coupling with a site index out of range or a tensor or
/// displacement of the wrong shape.
pub fn check_couplings<S: Copy, R>(couplings: &Vec<Coupling<S, R>>, sites: usize) -> (r: Result<
    (),
    InputShapeError,
>)
    requires
        forall|k: int| 0 <= k < couplings@.len() ==> (#[trigger] couplings@[k]).matrix.wf(),
    ensures
        r == as_result(first_error(coupling_errors(couplings@, sites as nat))),
{
    let ghost errs = coupling_errors(couplings@, sites as nat);
    let mut k: usize = 0;
    while k < couplings.len()
        invariant
            k <= couplings@.len(),
            errs == coupling_errors(couplings@, sites as nat),
            forall|k: int| 0 <= k < couplings@.len() ==> (#[trigger] couplings@[k]).matrix.wf(),
            forall|j: int| 0 <= j < k ==> #[trigger] errs[j] is None,
        decreases couplings@.len() - k,
    {
        let c = &couplings[k];
        let e = if !(c.index1 < sites && c.index2 < sites) {
            Some(InputShapeError::CouplingSite { coupling: k })
        } else if !is_3x3_exec(&c.matrix) {
            Some(InputShapeError::CouplingMatrixShape { coupling: k })
        } else if c.inter_site_vector.len() != 3 {
            Some(InputShapeError::CouplingVectorLength { coupling: k })
        } else {
            None
        };
        if let Some(err) = e {
            proof {
                lemma_first_error_at(errs, k as int);
            }
            return Err(err);
        }
        k = k + 1;
    }
    proof {
        lemma_first_error_none(errs);
    }
    Ok(())
}

/// A field vector that does not have three components, a number of
/// g-tensors other than `sites`, or the first g-tensor that is not 3x3.
pub fn check_field<S: Copy>(field: &Option<MagneticField<S>>, sites: usize) -> (r: Result<
    (),
    InputShapeError,
>)
    requires
        field matches Some(f) ==> forall|i: int|
            0 <= i < f.g_tensors@.len() ==> (#[trigger] f.g_tensors@[i]).wf(),
    ensures
        r == as_result(field_error(*field, sites as nat)),
{
    match field {
        None => Ok(()),
        Some(f) => {
            if f.vector.len() != 3 {
                return Err(InputShapeError::FieldVectorLength);
            }
            if f.g_tensors.len() != sites {
                return Err(
                    InputShapeError::GTensorCount { sites, g_tensors: f.g_tensors.len() },
                );
            }
            let ghost errs = g_tensor_errors(f.g_tensors@);
            let mut i: usize = 0;
            while i < f.g_tensors.len()
                invariant
                    i <= f.g_tensors@.len(),
                    *field == Some(*f),
                    f.vector@.len() == 3,
                    f.g_tensors@.len() == sites,
                    errs == g_tensor_errors(f.g_tensors@),
                    forall|i: int| 0 <= i < f.g_tensors@.len() ==> (#[trigger] f.g_tensors@[i]).wf(),
                    forall|j: int| 0 <= j < i ==> #[trigger] errs[j] is None,
                decreases f.g_tensors@.len() - i,
            {
                if !is_3x3_exec(&f.g_tensors[i]) {
                    proof {
                        lemma_first_error_at(errs, i as int);
                    }
                    return Err(InputShapeError::GTensorShape { site: i });
                }
                i = i + 1;
            }
            proof {
                lemma_first_error_none(errs);
            }
            Ok(())
        },
    }
}

/// A number of positions other than `sites`, or the first position that does
/// not have three components.
pub fn check_positions<R>(positions: &Option<Vec<Vec<R>>>, sites: usize) -> (r: Result<
    (),
    InputShapeError,
>)
    ensures
        r == as_result(position_error(*positions, sites as nat)),
{
    match positions {
        None => Ok(()),
        Some(p) => {
            if p.len() != sites {
                return Err(InputShapeError::PositionCount { sites, positions: p.len() });
            }
            let ghost errs = Seq::new(
                p@.len(),
                |i: int|
                    if p@[i]@.len() == 3 {
                        None
                    } else {
                        Some(InputShapeError::PositionLength { site: i as usize })
                    },
            );
            let mut i: usize = 0;
            while i < p.len()
                invariant
                    i <= p@.len(),
                    *positions == Some(*p),
                    p@.len() == sites,
                    errs == Seq::new(
                        p@.len(),
                        |i: int|
                            if p@[i]@.len() == 3 {
                                None
                            } else {
                                Some(InputShapeError::PositionLength { site: i as usize })
                            },
                    ),
                    forall|j: int| 0 <= j < i ==> #[trigger] errs[j] is None,
                decreases p@.len() - i,
            {
                if p[i].len() != 3 {
                    proof {
                        lemma_first_error_at(errs, i as int);
                    }
                    return Err(InputShapeError::PositionLength { site: i });
                }
                i = i + 1;
            }
            proof {
                lemma_first_error_none(errs);
            }
            Ok(())
        },
    }
}

/// Checks the shapes of a whole system before any per-q work: every
/// rotation and g-tensor 3x3, one magnitude (and, where given, one position
/// and one g-tensor) per site, three components to every q-point,
/// displacement, position and field vector, and coupling site indices below
/// the number of sites. The error is the first one in the order of
/// `shape_error`.
pub fn validate_system<S: Copy, R>(
    rotations: &Vec<DenseMatrix<S>>,
    magnitudes: &Vec<R>,
    q_vectors: &Vec<Vec<R>>,
    couplings: &Vec<Coupling<S, R>>,
    field: &Option<MagneticField<S>>,
    positions: &Option<Vec<Vec<R>>>,
) -> (r: Result<(), InputShapeError>)
    requires
        forall|i: int| 0 <= i < rotations@.len() ==> (#[trigger] rotations@[i]).wf(),
        forall|k: int| 0 <= k < couplings@.len() ==> (#[trigger] couplings@[k]).matrix.wf(),
        field matches Some(f) ==> forall|i: int|
            0 <= i < f.g_tensors@.len() ==> (#[trigger] f.g_tensors@[i]).wf(),
    ensures
        r == as_result(
            shape_error(rotations@, magnitudes@.len(), q_vectors@, couplings@, *field, *positions),
        ),
{
    let sites = rotations.len();
    check_rotations(rotations)?;
    if magnitudes.len() != sites {
        return Err(InputShapeError::MagnitudeCount { sites, magnitudes: magnitudes.len() });
    }
    check_q_vectors(q_vectors)?;
    check_couplings(couplings, sites)?;
    check_field(field, sites)?;
    check_positions(positions, sites)
}

} // verus!
