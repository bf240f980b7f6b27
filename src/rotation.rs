//! The local frame of each site, taken apart from its rotation matrix.
use vstd::prelude::*;
use crate::matrix::{DenseMatrix, column_entries};
use crate::system::is_3x3;

verus! {

/// For each site, from the columns `x`, `y`, `eta` of its 3x3 rotation: the
/// transverse vector `z` with `z[a] = raise(x[a], y[a])` (for complex
/// entries `raise` is `x + i y`), and the moment direction `eta`.
pub fn get_rotation_components<T: Copy, F: Fn(T, T) -> T>(
    rotations: &Vec<DenseMatrix<T>>,
    raise: F,
) -> (out: (Vec<Vec<T>>, Vec<Vec<T>>))
    requires
        forall|i: int| 0 <= i < rotations@.len() ==> is_3x3(#[trigger] rotations@[i]),
        forall|x: T, y: T| #[trigger] raise.requires((x, y)),
    ensures
        out.0@.len() == rotations@.len(),
        out.1@.len() == rotations@.len(),
        forall|i: int|
            0 <= i < rotations@.len() ==> (#[trigger] out.0@[i])@.len() == 3 && out.1@[i]@.len()
                == 3,
        forall|i: int, a: int|
            0 <= i < rotations@.len() && 0 <= a < 3 ==> raise.ensures(
                (rotations@[i]@[a][0], rotations@[i]@[a][1]),
                #[trigger] out.0@[i]@[a],
            ),
        forall|i: int, a: int|
            0 <= i < rotations@.len() && 0 <= a < 3 ==> #[trigger] out.1@[i]@[a]
                == rotations@[i]@[a][2],
{
    let mut zs: Vec<Vec<T>> = Vec::new();
    let mut etas: Vec<Vec<T>> = Vec::new();
    let mut i: usize = 0;
    while i < rotations.len()
        invariant
            i <= rotations@.len(),
            zs@.len() == i,
            etas@.len() == i,
            forall|i: int| 0 <= i < rotations@.len() ==> is_3x3(#[trigger] rotations@[i]),
            forall|x: T, y: T| #[trigger] raise.requires((x, y)),
            forall|k: int| 0 <= k < i ==> (#[trigger] zs@[k])@.len() == 3 && etas@[k]@.len() == 3,
            forall|k: int, a: int|
                0 <= k < i && 0 <= a < 3 ==> raise.ensures(
                    (rotations@[k]@[a][0], rotations@[k]@[a][1]),
                    #[trigger] zs@[k]@[a],
                ),
            forall|k: int, a: int|
                0 <= k < i && 0 <= a < 3 ==> #[trigger] etas@[k]@[a] == rotations@[k]@[a][2],
        decreases rotations@.len() - i,
    {
        let r = &rotations[i];
        let mut z: Vec<T> = Vec::new();
        let mut a: usize = 0;
        while a < 3
            invariant
                a <= 3,
                is_3x3(*r),
                forall|x: T, y: T| #[trigger] raise.requires((x, y)),
                z@.len() == a,
                forall|b: int| 0 <= b < a ==> raise.ensures((r@[b][0], r@[b][1]), #[trigger] z@[b]),
            decreases 3 - a,
        {
            let v = raise(r.get(a, 0), r.get(a, 1));
            z.push(v);
            a = a + 1;
        }
        zs.push(z);
        etas.push(column_entries(r, 2));
        i = i + 1;
    }
    (zs, etas)
}

} // verus!
