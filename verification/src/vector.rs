//! Three-component integer vectors: dot and cross product.
//!
//! Lengths are not computed here: a length is a square root, and this crate
//! works in exact integers. [`norm_squared`] gives the square of a length.

use vstd::prelude::*;

verus! {

/// A vector of three mathematical integers, the model of every vector type
/// of this crate.
pub struct V3 {
    pub x: int,
    pub y: int,
    pub z: int,
}

/// The dot product `a . b`.
pub open spec fn dot(a: V3, b: V3) -> int {
    a.x * b.x + a.y * b.y + a.z * b.z
}

/// The cross product `a x b`.
pub open spec fn cross(a: V3, b: V3) -> V3 {
    V3 { x: a.y * b.z - a.z * b.y, y: a.z * b.x - a.x * b.z, z: a.x * b.y - a.y * b.x }
}

/// The squared length of `a`.
pub open spec fn norm_squared(a: V3) -> int {
    dot(a, a)
}

/// Every component of `a` lies in `-limit ..= limit`.
pub open spec fn bounded(a: V3, limit: int) -> bool {
    &&& -limit <= a.x <= limit
    &&& -limit <= a.y <= limit
    &&& -limit <= a.z <= limit
}

/// The largest component size that [`Wide3::dot`] and [`Wide3::cross`]
/// take on their left: `2^63`.
pub open spec fn left_limit() -> int {
    0x8000_0000_0000_0000
}

/// The largest component size that [`Wide3::dot`] and [`Wide3::cross`]
/// take on their right: `2^61`.
pub open spec fn right_limit() -> int {
    0x2000_0000_0000_0000
}

/// A vector of pose accumulators: each component counts steps of a fixed
/// increment.
#[derive(Clone, Copy, Debug, PartialEq, Eq, Structural)]
pub struct Vec3 {
    pub x: i64,
    pub y: i64,
    pub z: i64,
}

impl View for Vec3 {
    type V = V3;

    open spec fn view(&self) -> V3 {
        V3 { x: self.x as int, y: self.y as int, z: self.z as int }
    }
}

/// A direction in whole world units. The components are small, so that the
/// products built from two directions and a position fit the machine.
#[derive(Clone, Copy, Debug, PartialEq, Eq, Structural)]
pub struct Axis3 {
    pub x: i16,
    pub y: i16,
    pub z: i16,
}

impl View for Axis3 {
    type V = V3;

    open spec fn view(&self) -> V3 {
        V3 { x: self.x as int, y: self.y as int, z: self.z as int }
    }
}

/// A vector wide enough for products of the other vectors.
#[derive(Clone, Copy, Debug, PartialEq, Eq, Structural)]
pub struct Wide3 {
    pub x: i128,
    pub y: i128,
    pub z: i128,
}

impl View for Wide3 {
    type V = V3;

    open spec fn view(&self) -> V3 {
        V3 { x: self.x as int, y: self.y as int, z: self.z as int }
    }
}

impl Vec3 {
    /// The same vector in the wide type.
    pub fn widen(&self) -> (w: Wide3)
        ensures
            w@ == self@,
    {
        Wide3 { x: self.x as i128, y: self.y as i128, z: self.z as i128 }
    }
}

impl Axis3 {
    /// The same vector in the wide type.
    pub fn widen(&self) -> (w: Wide3)
        ensures
            w@ == self@,
    {
        Wide3 { x: self.x as i128, y: self.y as i128, z: self.z as i128 }
    }
}

/// The size of a product is at most the product of the sizes.
pub proof fn lemma_product_bound(a: int, b: int, la: int, lb: int)
    by (nonlinear_arith)
    requires
        -la <= a <= la,
        -lb <= b <= lb,
    ensures
        -(la * lb) <= a * b <= la * lb,
{
}

impl Wide3 {
    /// The dot product. The bounds keep every product and the sum inside
    /// `i128`.
    pub fn dot(&self, other: &Wide3) -> (d: i128)
        requires
            bounded(self@, left_limit()),
            bounded(other@, right_limit()),
        ensures
            d == dot(self@, other@),
    {
        proof {
            lemma_product_bound(self.x as int, other.x as int, left_limit(), right_limit());
            lemma_product_bound(self.y as int, other.y as int, left_limit(), right_limit());
            lemma_product_bound(self.z as int, other.z as int, left_limit(), right_limit());
            assert(left_limit() * right_limit() == 0x1000_0000_0000_0000_0000_0000_0000_0000);
        }
        self.x * other.x + self.y * other.y + self.z * other.z
    }

    /// The cross product. The bounds keep every product and difference
    /// inside `i128`.
    pub fn cross(&self, other: &Wide3) -> (c: Wide3)
        requires
            bounded(self@, left_limit()),
            bounded(other@, right_limit()),
        ensures
            c@ == cross(self@, other@),
    {
        proof {
            lemma_product_bound(self.y as int, other.z as int, left_limit(), right_limit());
            lemma_product_bound(self.z as int, other.y as int, left_limit(), right_limit());
            lemma_product_bound(self.z as int, other.x as int, left_limit(), right_limit());
            lemma_product_bound(self.x as int, other.z as int, left_limit(), right_limit());
            lemma_product_bound(self.x as int, other.y as int, left_limit(), right_limit());
            lemma_product_bound(self.y as int, other.x as int, left_limit(), right_limit());
            assert(left_limit() * right_limit() == 0x1000_0000_0000_0000_0000_0000_0000_0000);
        }
        Wide3 {
            x: self.y * other.z - self.z * other.y,
            y: self.z * other.x - self.x * other.z,
            z: self.x * other.y - self.y * other.x,
        }
    }

    /// The squared length. The bound keeps the squares and their sum inside
    /// `i128`.
    pub fn norm_squared(&self) -> (n: i128)
        requires
            bounded(self@, right_limit()),
        ensures
            n == norm_squared(self@),
    {
        self.dot(self)
    }
}

proof fn lemma_square_difference(p: int, q: int)
    by (nonlinear_arith)
    ensures
        (p - q) * (p - q) == p * p - 2 * (p * q) + q * q,
{
}

proof fn lemma_square_sum(p: int, q: int, r: int)
    by (nonlinear_arith)
    ensures
        (p + q + r) * (p + q + r) == p * p + q * q + r * r + 2 * (p * q) + 2 * (p * r) + 2 * (q
            * r),
{
}

proof fn lemma_exchange(a: int, b: int, c: int, d: int)
    by (nonlinear_arith)
    ensures
        (a * b) * (c * d) == (a * d) * (c * b),
        (a * c) * (b * d) == (a * b) * (c * d),
{
}

proof fn lemma_distribute(a: int, x: int, y: int, z: int)
    by (nonlinear_arith)
    ensures
        a * (x + y + z) == a * x + a * y + a * z,
        (x + y + z) * a == x * a + y * a + z * a,
{
}

/// Lagrange's identity: `|a x b|^2 == |a|^2 |b|^2 - (a . b)^2`.
pub proof fn lemma_cross_norm(a: V3, b: V3)
    ensures
        norm_squared(cross(a, b)) == norm_squared(a) * norm_squared(b) - dot(a, b) * dot(a, b),
{
    let (ax, ay, az) = (a.x, a.y, a.z);
    let (bx, by, bz) = (b.x, b.y, b.z);
    lemma_square_difference(ay * bz, az * by);
    lemma_square_difference(az * bx, ax * bz);
    lemma_square_difference(ax * by, ay * bx);
    lemma_exchange(ay, bz, az, by);
    lemma_exchange(az, bx, ax, bz);
    lemma_exchange(ax, by, ay, bx);
    lemma_distribute(bx * bx + by * by + bz * bz, ax * ax, ay * ay, az * az);
    lemma_distribute(ax * ax, bx * bx, by * by, bz * bz);
    lemma_distribute(ay * ay, bx * bx, by * by, bz * bz);
    lemma_distribute(az * az, bx * bx, by * by, bz * bz);
    lemma_exchange(ax, ax, bx, bx);
    lemma_exchange(ax, ax, by, by);
    lemma_exchange(ax, ax, bz, bz);
    lemma_exchange(ay, ay, bx, bx);
    lemma_exchange(ay, ay, by, by);
    lemma_exchange(ay, ay, bz, bz);
    lemma_exchange(az, az, bx, bx);
    lemma_exchange(az, az, by, by);
    lemma_exchange(az, az, bz, bz);
    lemma_square_sum(ax * bx, ay * by, az * bz);
}

/// The scalar triple product is unchanged when its factors rotate:
/// `(a x b) . c == (c x a) . b`.
pub proof fn lemma_triple_product_rotates(a: V3, b: V3, c: V3)
    ensures
        dot(cross(a, b), c) == dot(cross(c, a), b),
{
    let (ax, ay, az) = (a.x, a.y, a.z);
    let (bx, by, bz) = (b.x, b.y, b.z);
    let (cx, cy, cz) = (c.x, c.y, c.z);
    assert((ay * bz - az * by) * cx == cx * ay * bz - cx * az * by) by (nonlinear_arith);
    assert((az * bx - ax * bz) * cy == cy * az * bx - cy * ax * bz) by (nonlinear_arith);
    assert((ax * by - ay * bx) * cz == cz * ax * by - cz * ay * bx) by (nonlinear_arith);
    assert((cy * az - cz * ay) * bx == cy * az * bx - cz * ay * bx) by (nonlinear_arith);
    assert((cz * ax - cx * az) * by == cz * ax * by - cx * az * by) by (nonlinear_arith);
    assert((cx * ay - cy * ax) * bz == cx * ay * bz - cy * ax * bz) by (nonlinear_arith);
}

/// A cross product is orthogonal to both of its factors.
pub proof fn lemma_cross_orthogonal(a: V3, b: V3)
    ensures
        dot(cross(a, b), a) == 0,
        dot(cross(a, b), b) == 0,
{
    let zero = V3 { x: 0, y: 0, z: 0 };
    assert(dot(zero, a) == 0 && dot(zero, b) == 0);
    lemma_triple_product_rotates(a, b, a);
    assert(cross(a, a) == zero) by {
        assert(a.y * a.z - a.z * a.y == 0) by (nonlinear_arith);
        assert(a.z * a.x - a.x * a.z == 0) by (nonlinear_arith);
        assert(a.x * a.y - a.y * a.x == 0) by (nonlinear_arith);
    }
    lemma_triple_product_rotates(a, b, b);
    lemma_triple_product_rotates(b, a, b);
    assert(cross(b, b) == zero) by {
        assert(b.y * b.z - b.z * b.y == 0) by (nonlinear_arith);
        assert(b.z * b.x - b.x * b.z == 0) by (nonlinear_arith);
        assert(b.x * b.y - b.y * b.x == 0) by (nonlinear_arith);
    }
}

} // verus!
