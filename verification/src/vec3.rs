//! Three-component vectors over fixed-point reals.

use vstd::prelude::*;
use crate::fx::{Fx, fx_add, fx_sub, fx_mul, fx_div, fx_sqrt, SCALE};

verus! {

/// Mathematical model of a vector: its three raw components.
pub struct V3 {
    pub x: int,
    pub y: int,
    pub z: int,
}

/// Componentwise sum.
pub open spec fn v3_add(a: V3, b: V3) -> V3 {
    V3 { x: fx_add(a.x, b.x), y: fx_add(a.y, b.y), z: fx_add(a.z, b.z) }
}

/// Componentwise difference.
pub open spec fn v3_sub(a: V3, b: V3) -> V3 {
    V3 { x: fx_sub(a.x, b.x), y: fx_sub(a.y, b.y), z: fx_sub(a.z, b.z) }
}

/// Scalar multiple.
pub open spec fn v3_scale(k: int, v: V3) -> V3 {
    V3 { x: fx_mul(k, v.x), y: fx_mul(k, v.y), z: fx_mul(k, v.z) }
}

/// Dot product, summed left to right.
pub open spec fn v3_dot(a: V3, b: V3) -> int {
    fx_add(fx_add(fx_mul(a.x, b.x), fx_mul(a.y, b.y)), fx_mul(a.z, b.z))
}

/// Cross product.
pub open spec fn v3_cross(a: V3, b: V3) -> V3 {
    V3 {
        x: fx_sub(fx_mul(a.y, b.z), fx_mul(a.z, b.y)),
        y: fx_sub(fx_mul(a.z, b.x), fx_mul(a.x, b.z)),
        z: fx_sub(fx_mul(a.x, b.y), fx_mul(a.y, b.x)),
    }
}

/// Magnitude: square root of the dot product with itself.
pub open spec fn v3_mag(v: V3) -> int {
    fx_sqrt(v3_dot(v, v))
}

/// Normalization: the vector scaled by the reciprocal of its magnitude.
/// A zero magnitude makes the reciprocal zero, so the zero vector
/// normalizes to itself.
pub open spec fn v3_norm(v: V3) -> V3 {
    v3_scale(fx_div(SCALE as int, v3_mag(v)), v)
}

/// An ordered triple of fixed-point reals.
#[derive(Clone, Copy, PartialEq, Eq, Structural, Debug)]
pub struct Vec3 {
    pub x: Fx,
    pub y: Fx,
    pub z: Fx,
}

impl View for Vec3 {
    type V = V3;

    open spec fn view(&self) -> V3 {
        V3 { x: self.x@, y: self.y@, z: self.z@ }
    }
}

impl Vec3 {
    /// Assemble a vector from its components.
    pub fn new(x: Fx, y: Fx, z: Fx) -> (r: Vec3)
        ensures
            r@ == (V3 { x: x@, y: y@, z: z@ }),
    {
        Vec3 { x, y, z }
    }

    /// Vector addition.
    pub fn add(self, rhs: Vec3) -> (r: Vec3)
        ensures
            r@ == v3_add(self@, rhs@),
    {
        Vec3 { x: self.x.add(rhs.x), y: self.y.add(rhs.y), z: self.z.add(rhs.z) }
    }

    /// Vector subtraction.
    pub fn sub(self, rhs: Vec3) -> (r: Vec3)
        ensures
            r@ == v3_sub(self@, rhs@),
    {
        Vec3 { x: self.x.sub(rhs.x), y: self.y.sub(rhs.y), z: self.z.sub(rhs.z) }
    }

    /// Multiplication by a scalar.
    pub fn scale(self, k: Fx) -> (r: Vec3)
        ensures
            r@ == v3_scale(k@, self@),
    {
        Vec3 { x: k.mul(self.x), y: k.mul(self.y), z: k.mul(self.z) }
    }

    /// Dot product.
    pub fn dot(self, rhs: Vec3) -> (r: Fx)
        ensures
            r@ == v3_dot(self@, rhs@),
    {
        self.x.mul(rhs.x).add(self.y.mul(rhs.y)).add(self.z.mul(rhs.z))
    }

    /// Cross product.
    pub fn cross(self, rhs: Vec3) -> (r: Vec3)
        ensures
            r@ == v3_cross(self@, rhs@),
    {
        Vec3 {
            x: self.y.mul(rhs.z).sub(self.z.mul(rhs.y)),
            y: self.z.mul(rhs.x).sub(self.x.mul(rhs.z)),
            z: self.x.mul(rhs.y).sub(self.y.mul(rhs.x)),
        }
    }

    /// Magnitude.
    pub fn mag(self) -> (r: Fx)
        ensures
            r@ == v3_mag(self@),
    {
        self.dot(self).sqrt()
    }

    /// The unit vector in this vector's direction (zero stays zero).
    pub fn norm(self) -> (r: Vec3)
        ensures
            r@ == v3_norm(self@),
    {
        let k = Fx::one().div(self.mag());
        self.scale(k)
    }
}

} // verus!
