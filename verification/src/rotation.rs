//! Exact quarter-turn rotations, kept as signed integer matrices.
//!
//! Every orientation a pipe segment can take is a rotation by a multiple of
//! a quarter turn about a coordinate axis, so the full set of transforms
//! lives inside the 24-element rotation group of the cube. Holding them as
//! integer matrices keeps the resolver's case table exact; the rendering
//! layer turns a matrix into its floating-point form only at the boundary.

use vstd::prelude::*;

verus! {

/// A vector with small integer components.
#[derive(Debug, Copy, Clone, PartialEq, Eq, Structural)]
pub struct IVec3 {
    pub x: i32,
    pub y: i32,
    pub z: i32,
}

/// A rotation matrix held by columns: the images of the X, Y and Z basis
/// vectors.
#[derive(Debug, Copy, Clone, PartialEq, Eq, Structural)]
pub struct Rot {
    pub x_img: IVec3,
    pub y_img: IVec3,
    pub z_img: IVec3,
}

/// True when the vector is one of the six signed unit axis vectors.
pub open spec fn axis_unit(v: IVec3) -> bool {
    ||| v == (IVec3 { x: 1, y: 0, z: 0 })
    ||| v == (IVec3 { x: -1i32, y: 0, z: 0 })
    ||| v == (IVec3 { x: 0, y: 1, z: 0 })
    ||| v == (IVec3 { x: 0, y: -1i32, z: 0 })
    ||| v == (IVec3 { x: 0, y: 0, z: 1 })
    ||| v == (IVec3 { x: 0, y: 0, z: -1i32 })
}

/// Every component of the vector lies in `[-1, 1]`.
pub open spec fn small_vec(v: IVec3) -> bool {
    -1 <= v.x <= 1 && -1 <= v.y <= 1 && -1 <= v.z <= 1
}

/// Every entry of the matrix lies in `[-1, 1]`.
pub open spec fn small_entries(r: Rot) -> bool {
    small_vec(r.x_img) && small_vec(r.y_img) && small_vec(r.z_img)
}

/// Dot product of two integer vectors.
pub open spec fn dot(a: IVec3, b: IVec3) -> int {
    a.x * b.x + a.y * b.y + a.z * b.z
}

/// Determinant of the matrix, as the triple product of its columns.
pub open spec fn rot_det(r: Rot) -> int {
    r.x_img.x * (r.y_img.y * r.z_img.z - r.y_img.z * r.z_img.y) - r.x_img.y * (r.y_img.x
        * r.z_img.z - r.y_img.z * r.z_img.x) + r.x_img.z * (r.y_img.x * r.z_img.y - r.y_img.y
        * r.z_img.x)
}

/// True for a proper rigid rotation: orthonormal signed-axis columns and
/// determinant one, so no reflection and no scaling.
pub open spec fn is_rotation(r: Rot) -> bool {
    &&& axis_unit(r.x_img)
    &&& axis_unit(r.y_img)
    &&& axis_unit(r.z_img)
    &&& dot(r.x_img, r.y_img) == 0
    &&& dot(r.y_img, r.z_img) == 0
    &&& dot(r.x_img, r.z_img) == 0
    &&& rot_det(r) == 1
}

/// The image of a vector under the matrix, as unbounded integers.
pub open spec fn sp_apply(r: Rot, v: IVec3) -> (int, int, int) {
    (
        r.x_img.x * v.x + r.y_img.x * v.y + r.z_img.x * v.z,
        r.x_img.y * v.x + r.y_img.y * v.y + r.z_img.y * v.z,
        r.x_img.z * v.x + r.y_img.z * v.y + r.z_img.z * v.z,
    )
}

/// A product of two factors from `[-1, 1]` stays in `[-1, 1]`.
proof fn lemma_small_product(p: int, q: int)
    by (nonlinear_arith)
    requires
        -1 <= p <= 1,
        -1 <= q <= 1,
    ensures
        -1 <= p * q <= 1,
{
}

/// Applies the rotation to a vector with small components.
pub fn rotate(r: Rot, v: IVec3) -> (w: IVec3)
    requires
        small_entries(r),
        small_vec(v),
    ensures
        (w.x as int, w.y as int, w.z as int) == sp_apply(r, v),
{
    proof {
        lemma_small_product(r.x_img.x as int, v.x as int);
        lemma_small_product(r.y_img.x as int, v.y as int);
        lemma_small_product(r.z_img.x as int, v.z as int);
        lemma_small_product(r.x_img.y as int, v.x as int);
        lemma_small_product(r.y_img.y as int, v.y as int);
        lemma_small_product(r.z_img.y as int, v.z as int);
        lemma_small_product(r.x_img.z as int, v.x as int);
        lemma_small_product(r.y_img.z as int, v.y as int);
        lemma_small_product(r.z_img.z as int, v.z as int);
    }
    IVec3 {
        x: r.x_img.x * v.x + r.y_img.x * v.y + r.z_img.x * v.z,
        y: r.x_img.y * v.x + r.y_img.y * v.y + r.z_img.y * v.z,
        z: r.x_img.z * v.x + r.y_img.z * v.y + r.z_img.z * v.z,
    }
}

/// The componentwise negation of a small vector.
pub open spec fn neg3(v: IVec3) -> IVec3 {
    IVec3 { x: (0 - v.x) as i32, y: (0 - v.y) as i32, z: (0 - v.z) as i32 }
}

/// The image of a signed unit axis vector under the matrix: the matching
/// column, negated for the negative axes.
pub open spec fn apply_axis(r: Rot, v: IVec3) -> IVec3 {
    if v == (IVec3 { x: 1, y: 0, z: 0 }) {
        r.x_img
    } else if v == (IVec3 { x: -1i32, y: 0, z: 0 }) {
        neg3(r.x_img)
    } else if v == (IVec3 { x: 0, y: 1, z: 0 }) {
        r.y_img
    } else if v == (IVec3 { x: 0, y: -1i32, z: 0 }) {
        neg3(r.y_img)
    } else if v == (IVec3 { x: 0, y: 0, z: 1 }) {
        r.z_img
    } else {
        neg3(r.z_img)
    }
}

/// Negates each component of a small vector.
fn neg_col(v: IVec3) -> (w: IVec3)
    requires
        small_vec(v),
    ensures
        w == neg3(v),
{
    IVec3 { x: -v.x, y: -v.y, z: -v.z }
}

/// Picks the column a signed unit axis vector selects.
fn apply_column(r: Rot, v: IVec3) -> (w: IVec3)
    requires
        small_entries(r),
        axis_unit(v),
    ensures
        w == apply_axis(r, v),
{
    if v.x == 1 {
        r.x_img
    } else if v.x == -1 {
        neg_col(r.x_img)
    } else if v.y == 1 {
        r.y_img
    } else if v.y == -1 {
        neg_col(r.y_img)
    } else if v.z == 1 {
        r.z_img
    } else {
        neg_col(r.z_img)
    }
}

/// Composes two rotations: the result applies `b` first, then `a`, matching
/// matrix multiplication `a * b`. Each column of `b` is a signed unit axis
/// vector, so each column of the product is a column of `a`, possibly
/// negated.
pub fn rot_mul(a: Rot, b: Rot) -> (r: Rot)
    requires
        small_entries(a),
        axis_unit(b.x_img),
        axis_unit(b.y_img),
        axis_unit(b.z_img),
    ensures
        r.x_img == apply_axis(a, b.x_img),
        r.y_img == apply_axis(a, b.y_img),
        r.z_img == apply_axis(a, b.z_img),
{
    Rot {
        x_img: apply_column(a, b.x_img),
        y_img: apply_column(a, b.y_img),
        z_img: apply_column(a, b.z_img),
    }
}

/// The identity rotation, as a specification constant.
pub open spec fn sp_rot_identity() -> Rot {
    Rot {
        x_img: IVec3 { x: 1, y: 0, z: 0 },
        y_img: IVec3 { x: 0, y: 1, z: 0 },
        z_img: IVec3 { x: 0, y: 0, z: 1 },
    }
}

/// The identity rotation.
pub fn rot_identity() -> (r: Rot)
    ensures
        r == sp_rot_identity(),
{
    Rot {
        x_img: IVec3 { x: 1, y: 0, z: 0 },
        y_img: IVec3 { x: 0, y: 1, z: 0 },
        z_img: IVec3 { x: 0, y: 0, z: 1 },
    }
}

/// A quarter turn about the X axis.
pub fn rot_x_90() -> (r: Rot)
    ensures
        r == (Rot {
            x_img: IVec3 { x: 1, y: 0, z: 0 },
            y_img: IVec3 { x: 0, y: 0, z: 1 },
            z_img: IVec3 { x: 0, y: -1i32, z: 0 },
        }),
{
    Rot {
        x_img: IVec3 { x: 1, y: 0, z: 0 },
        y_img: IVec3 { x: 0, y: 0, z: 1 },
        z_img: IVec3 { x: 0, y: -1i32, z: 0 },
    }
}

/// A half turn about the X axis.
pub fn rot_x_180() -> (r: Rot)
    ensures
        r == (Rot {
            x_img: IVec3 { x: 1, y: 0, z: 0 },
            y_img: IVec3 { x: 0, y: -1i32, z: 0 },
            z_img: IVec3 { x: 0, y: 0, z: -1i32 },
        }),
{
    Rot {
        x_img: IVec3 { x: 1, y: 0, z: 0 },
        y_img: IVec3 { x: 0, y: -1i32, z: 0 },
        z_img: IVec3 { x: 0, y: 0, z: -1i32 },
    }
}

/// A quarter turn about the X axis in the opposite sense.
pub fn rot_x_270() -> (r: Rot)
    ensures
        r == (Rot {
            x_img: IVec3 { x: 1, y: 0, z: 0 },
            y_img: IVec3 { x: 0, y: 0, z: -1i32 },
            z_img: IVec3 { x: 0, y: 1, z: 0 },
        }),
{
    Rot {
        x_img: IVec3 { x: 1, y: 0, z: 0 },
        y_img: IVec3 { x: 0, y: 0, z: -1i32 },
        z_img: IVec3 { x: 0, y: 1, z: 0 },
    }
}

/// A quarter turn about the Y axis.
pub fn rot_y_90() -> (r: Rot)
    ensures
        r == (Rot {
            x_img: IVec3 { x: 0, y: 0, z: -1i32 },
            y_img: IVec3 { x: 0, y: 1, z: 0 },
            z_img: IVec3 { x: 1, y: 0, z: 0 },
        }),
{
    Rot {
        x_img: IVec3 { x: 0, y: 0, z: -1i32 },
        y_img: IVec3 { x: 0, y: 1, z: 0 },
        z_img: IVec3 { x: 1, y: 0, z: 0 },
    }
}

/// A half turn about the Y axis.
pub fn rot_y_180() -> (r: Rot)
    ensures
        r == (Rot {
            x_img: IVec3 { x: -1i32, y: 0, z: 0 },
            y_img: IVec3 { x: 0, y: 1, z: 0 },
            z_img: IVec3 { x: 0, y: 0, z: -1i32 },
        }),
{
    Rot {
        x_img: IVec3 { x: -1i32, y: 0, z: 0 },
        y_img: IVec3 { x: 0, y: 1, z: 0 },
        z_img: IVec3 { x: 0, y: 0, z: -1i32 },
    }
}

/// A quarter turn about the Y axis in the opposite sense.
pub fn rot_y_270() -> (r: Rot)
    ensures
        r == (Rot {
            x_img: IVec3 { x: 0, y: 0, z: 1 },
            y_img: IVec3 { x: 0, y: 1, z: 0 },
            z_img: IVec3 { x: -1i32, y: 0, z: 0 },
        }),
{
    Rot {
        x_img: IVec3 { x: 0, y: 0, z: 1 },
        y_img: IVec3 { x: 0, y: 1, z: 0 },
        z_img: IVec3 { x: -1i32, y: 0, z: 0 },
    }
}

/// A quarter turn about the Z axis.
pub fn rot_z_90() -> (r: Rot)
    ensures
        r == (Rot {
            x_img: IVec3 { x: 0, y: 1, z: 0 },
            y_img: IVec3 { x: -1i32, y: 0, z: 0 },
            z_img: IVec3 { x: 0, y: 0, z: 1 },
        }),
{
    Rot {
        x_img: IVec3 { x: 0, y: 1, z: 0 },
        y_img: IVec3 { x: -1i32, y: 0, z: 0 },
        z_img: IVec3 { x: 0, y: 0, z: 1 },
    }
}

/// A half turn about the Z axis.
pub fn rot_z_180() -> (r: Rot)
    ensures
        r == (Rot {
            x_img: IVec3 { x: -1i32, y: 0, z: 0 },
            y_img: IVec3 { x: 0, y: -1i32, z: 0 },
            z_img: IVec3 { x: 0, y: 0, z: 1 },
        }),
{
    Rot {
        x_img: IVec3 { x: -1i32, y: 0, z: 0 },
        y_img: IVec3 { x: 0, y: -1i32, z: 0 },
        z_img: IVec3 { x: 0, y: 0, z: 1 },
    }
}

/// A quarter turn about the Z axis in the opposite sense.
pub fn rot_z_270() -> (r: Rot)
    ensures
        r == (Rot {
            x_img: IVec3 { x: 0, y: -1i32, z: 0 },
            y_img: IVec3 { x: 1, y: 0, z: 0 },
            z_img: IVec3 { x: 0, y: 0, z: 1 },
        }),
{
    Rot {
        x_img: IVec3 { x: 0, y: -1i32, z: 0 },
        y_img: IVec3 { x: 1, y: 0, z: 0 },
        z_img: IVec3 { x: 0, y: 0, z: 1 },
    }
}

} // verus!
