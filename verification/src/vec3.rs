//! Fixed-point world-space vectors.
//!
//! World-space geometry the core reasons about (camera and light positions,
//! cube-face directions and up vectors) is carried in fixed-point integers:
//! one world unit is [`crate::FX_ONE`] steps.  Every operation states the
//! bounds under which it stays inside `i64`.

use vstd::prelude::*;

verus! {

/// A three-component vector of fixed-point coordinates.
#[derive(Clone, Copy, PartialEq, Eq, Structural, Debug)]
pub struct Vec3Fx {
    pub x: i64,
    pub y: i64,
    pub z: i64,
}

impl Vec3Fx {
    pub fn new(x: i64, y: i64, z: i64) -> (r: Vec3Fx)
        ensures
            r.x == x && r.y == y && r.z == z,
    {
        Vec3Fx { x, y, z }
    }

    /// Componentwise sum.
    pub fn plus(&self, o: &Vec3Fx) -> (r: Vec3Fx)
        requires
            i64::MIN <= self.x + o.x <= i64::MAX,
            i64::MIN <= self.y + o.y <= i64::MAX,
            i64::MIN <= self.z + o.z <= i64::MAX,
        ensures
            r.x == self.x + o.x,
            r.y == self.y + o.y,
            r.z == self.z + o.z,
    {
        Vec3Fx { x: self.x + o.x, y: self.y + o.y, z: self.z + o.z }
    }

    /// Scales every coordinate by `k`.  Meant for small inputs such as the
    /// unit cube-face axes; the bounds keep every product inside `i64`.
    pub fn scaled(&self, k: i64) -> (r: Vec3Fx)
        requires
            -0x10_0000 <= self.x <= 0x10_0000,
            -0x10_0000 <= self.y <= 0x10_0000,
            -0x10_0000 <= self.z <= 0x10_0000,
            -0x10_0000_0000 <= k <= 0x10_0000_0000,
        ensures
            r.x == self.x * k,
            r.y == self.y * k,
            r.z == self.z * k,
    {
        proof {
            lemma_small_product_bounded(self.x as int, k as int);
            lemma_small_product_bounded(self.y as int, k as int);
            lemma_small_product_bounded(self.z as int, k as int);
        }
        Vec3Fx { x: self.x * k, y: self.y * k, z: self.z * k }
    }

    /// Cross product, for small vectors such as the unit cube-face axes.
    pub fn cross(&self, o: &Vec3Fx) -> (r: Vec3Fx)
        requires
            -0x10_0000 <= self.x <= 0x10_0000,
            -0x10_0000 <= self.y <= 0x10_0000,
            -0x10_0000 <= self.z <= 0x10_0000,
            -0x10_0000 <= o.x <= 0x10_0000,
            -0x10_0000 <= o.y <= 0x10_0000,
            -0x10_0000 <= o.z <= 0x10_0000,
        ensures
            r.x == self.y * o.z - self.z * o.y,
            r.y == self.z * o.x - self.x * o.z,
            r.z == self.x * o.y - self.y * o.x,
    {
        proof {
            lemma_small_product_bounded(self.y as int, o.z as int);
            lemma_small_product_bounded(self.z as int, o.y as int);
            lemma_small_product_bounded(self.z as int, o.x as int);
            lemma_small_product_bounded(self.x as int, o.z as int);
            lemma_small_product_bounded(self.x as int, o.y as int);
            lemma_small_product_bounded(self.y as int, o.x as int);
        }
        Vec3Fx {
            x: self.y * o.z - self.z * o.y,
            y: self.z * o.x - self.x * o.z,
            z: self.x * o.y - self.y * o.x,
        }
    }
}

/// A product of factors bounded by `2^20` and `2^36` stays well inside `i64`.
pub proof fn lemma_small_product_bounded(a: int, b: int)
    requires
        -0x10_0000 <= a <= 0x10_0000,
        -0x10_0000_0000 <= b <= 0x10_0000_0000,
    ensures
        -0x1000_0000_0000_0000 <= a * b <= 0x1000_0000_0000_0000,
{
    assert(-0x1000_0000_0000_0000 <= a * b <= 0x1000_0000_0000_0000) by (nonlinear_arith)
        requires
            -0x10_0000 <= a <= 0x10_0000,
            -0x10_0000_0000 <= b <= 0x10_0000_0000,
    ;
}

} // verus!
