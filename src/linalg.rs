//! 2-vectors and column-major 2x2 matrices over fixed-point scalars.
use vstd::prelude::*;

use crate::fixed::{fixed_add, fixed_div, fixed_mul, fixed_neg, fixed_sub, fx_add, fx_div, fx_mul, fx_neg, fx_sub, ONE};

verus! {

#[derive(Clone, Copy, Debug, PartialEq, Eq, Structural)]
pub struct Vec2 {
    pub x: i64,
    pub y: i64,
}

/// A 2x2 matrix stored by columns: `x_axis` is the first column.
#[derive(Clone, Copy, Debug, PartialEq, Eq, Structural)]
pub struct Mat2 {
    pub x_axis: Vec2,
    pub y_axis: Vec2,
}

pub open spec fn vec2(x: int, y: int) -> Vec2 {
    Vec2 { x: x as i64, y: y as i64 }
}

pub open spec fn zero_vec() -> Vec2 {
    Vec2 { x: 0, y: 0 }
}

pub open spec fn vec_add(a: Vec2, b: Vec2) -> Vec2 {
    vec2(fx_add(a.x as int, b.x as int), fx_add(a.y as int, b.y as int))
}

pub open spec fn vec_sub(a: Vec2, b: Vec2) -> Vec2 {
    vec2(fx_sub(a.x as int, b.x as int), fx_sub(a.y as int, b.y as int))
}

pub open spec fn vec_scale(a: Vec2, s: int) -> Vec2 {
    vec2(fx_mul(a.x as int, s), fx_mul(a.y as int, s))
}

pub open spec fn zero_mat() -> Mat2 {
    Mat2 { x_axis: zero_vec(), y_axis: zero_vec() }
}

pub open spec fn identity_mat() -> Mat2 {
    Mat2 { x_axis: Vec2 { x: ONE, y: 0 }, y_axis: Vec2 { x: 0, y: ONE } }
}

pub open spec fn mat_add(a: Mat2, b: Mat2) -> Mat2 {
    Mat2 { x_axis: vec_add(a.x_axis, b.x_axis), y_axis: vec_add(a.y_axis, b.y_axis) }
}

pub open spec fn mat_sub(a: Mat2, b: Mat2) -> Mat2 {
    Mat2 { x_axis: vec_sub(a.x_axis, b.x_axis), y_axis: vec_sub(a.y_axis, b.y_axis) }
}

pub open spec fn mat_scale(a: Mat2, s: int) -> Mat2 {
    Mat2 { x_axis: vec_scale(a.x_axis, s), y_axis: vec_scale(a.y_axis, s) }
}

/// `m * v`: the columns weighted by the components of `v`.
pub open spec fn mat_vec(m: Mat2, v: Vec2) -> Vec2 {
    vec_add(vec_scale(m.x_axis, v.x as int), vec_scale(m.y_axis, v.y as int))
}

/// `a * b`, column by column.
pub open spec fn mat_mul(a: Mat2, b: Mat2) -> Mat2 {
    Mat2 { x_axis: mat_vec(a, b.x_axis), y_axis: mat_vec(a, b.y_axis) }
}

pub open spec fn transpose(m: Mat2) -> Mat2 {
    Mat2 { x_axis: Vec2 { x: m.x_axis.x, y: m.y_axis.x }, y_axis: Vec2 { x: m.x_axis.y, y: m.y_axis.y } }
}

pub open spec fn determinant(m: Mat2) -> int {
    fx_sub(fx_mul(m.x_axis.x as int, m.y_axis.y as int), fx_mul(m.y_axis.x as int, m.x_axis.y as int))
}

/// The adjugate divided by the determinant; the zero matrix when the determinant is zero.
pub open spec fn inverse(m: Mat2) -> Mat2 {
    let d = determinant(m);
    Mat2 {
        x_axis: vec2(fx_div(m.y_axis.y as int, d), fx_div(fx_neg(m.x_axis.y as int), d)),
        y_axis: vec2(fx_div(fx_neg(m.y_axis.x as int), d), fx_div(m.x_axis.x as int, d)),
    }
}

impl Vec2 {
    pub fn new(x: i64, y: i64) -> (r: Vec2)
        ensures
            r == (Vec2 { x, y }),
    {
        Vec2 { x, y }
    }

    pub fn zero() -> (r: Vec2)
        ensures
            r == zero_vec(),
    {
        Vec2 { x: 0, y: 0 }
    }

    pub fn add(self, o: Vec2) -> (r: Vec2)
        ensures
            r == vec_add(self, o),
    {
        Vec2 { x: fixed_add(self.x, o.x), y: fixed_add(self.y, o.y) }
    }

    pub fn sub(self, o: Vec2) -> (r: Vec2)
        ensures
            r == vec_sub(self, o),
    {
        Vec2 { x: fixed_sub(self.x, o.x), y: fixed_sub(self.y, o.y) }
    }

    pub fn scale(self, s: i64) -> (r: Vec2)
        ensures
            r == vec_scale(self, s as int),
    {
        Vec2 { x: fixed_mul(self.x, s), y: fixed_mul(self.y, s) }
    }
}

impl Mat2 {
    pub fn from_cols(x_axis: Vec2, y_axis: Vec2) -> (r: Mat2)
        ensures
            r == (Mat2 { x_axis, y_axis }),
    {
        Mat2 { x_axis, y_axis }
    }

    pub fn zero() -> (r: Mat2)
        ensures
            r == zero_mat(),
    {
        Mat2 { x_axis: Vec2::zero(), y_axis: Vec2::zero() }
    }

    pub fn identity() -> (r: Mat2)
        ensures
            r == identity_mat(),
    {
        Mat2 { x_axis: Vec2 { x: ONE, y: 0 }, y_axis: Vec2 { x: 0, y: ONE } }
    }

    pub fn add(self, o: Mat2) -> (r: Mat2)
        ensures
            r == mat_add(self, o),
    {
        Mat2 { x_axis: self.x_axis.add(o.x_axis), y_axis: self.y_axis.add(o.y_axis) }
    }

    pub fn sub(self, o: Mat2) -> (r: Mat2)
        ensures
            r == mat_sub(self, o),
    {
        Mat2 { x_axis: self.x_axis.sub(o.x_axis), y_axis: self.y_axis.sub(o.y_axis) }
    }

    pub fn scale(self, s: i64) -> (r: Mat2)
        ensures
            r == mat_scale(self, s as int),
    {
        Mat2 { x_axis: self.x_axis.scale(s), y_axis: self.y_axis.scale(s) }
    }

    pub fn mul_vec2(self, v: Vec2) -> (r: Vec2)
        ensures
            r == mat_vec(self, v),
    {
        self.x_axis.scale(v.x).add(self.y_axis.scale(v.y))
    }

    pub fn mul_mat2(self, o: Mat2) -> (r: Mat2)
        ensures
            r == mat_mul(self, o),
    {
        Mat2 { x_axis: self.mul_vec2(o.x_axis), y_axis: self.mul_vec2(o.y_axis) }
    }

    /// Row `i` (0 or 1).
    pub fn row(self, i: usize) -> (r: Vec2)
        requires
            i < 2,
        ensures
            i == 0 ==> r == (Vec2 { x: self.x_axis.x, y: self.y_axis.x }),
            i == 1 ==> r == (Vec2 { x: self.x_axis.y, y: self.y_axis.y }),
    {
        if i == 0 {
            Vec2 { x: self.x_axis.x, y: self.y_axis.x }
        } else {
            Vec2 { x: self.x_axis.y, y: self.y_axis.y }
        }
    }

    pub fn transpose(self) -> (r: Mat2)
        ensures
            r == transpose(self),
    {
        Mat2 {
            x_axis: Vec2 { x: self.x_axis.x, y: self.y_axis.x },
            y_axis: Vec2 { x: self.x_axis.y, y: self.y_axis.y },
        }
    }

    pub fn determinant(self) -> (r: i64)
        ensures
            r == determinant(self),
    {
        fixed_sub(fixed_mul(self.x_axis.x, self.y_axis.y), fixed_mul(self.y_axis.x, self.x_axis.y))
    }

    pub fn inverse(self) -> (r: Mat2)
        ensures
            r == inverse(self),
    {
        let d = self.determinant();
        Mat2 {
            x_axis: Vec2 {
                x: fixed_div(self.y_axis.y, d),
                y: fixed_div(fixed_neg(self.x_axis.y), d),
            },
            y_axis: Vec2 {
                x: fixed_div(fixed_neg(self.y_axis.x), d),
                y: fixed_div(self.x_axis.x, d),
            },
        }
    }
}

} // verus!
