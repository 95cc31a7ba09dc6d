//! The exact part of the view matrix: an orthogonal, right-handed camera
//! basis in integers.
//!
//! For a camera at `p`, looking along `d`, with `u` upward, let
//! `s = u x d` and `v = d x s`. The linear part of the view matrix has the
//! rows `s / |s|`, `v / |v|` and `d / |d|`, and its translation is
//! `(-p . s / |s|, -p . v / |v|, -p . d / |d|)`. Everything but the three
//! lengths is computed here; the caller takes the square roots of the
//! squared lengths and divides.

use vstd::prelude::*;
use crate::vector::bounded;
use crate::vector::cross;
use crate::vector::dot;
use crate::vector::lemma_cross_norm;
use crate::vector::lemma_cross_orthogonal;
use crate::vector::lemma_product_bound;
use crate::vector::lemma_triple_product_rotates;
use crate::vector::norm_squared;
use crate::vector::Axis3;
use crate::vector::Vec3;
use crate::vector::Wide3;
use crate::vector::V3;

verus! {

/// The camera has no basis: the direction or the up vector is zero, or the
/// two are parallel.
pub open spec fn degenerate(direction: V3, up: V3) -> bool {
    cross(up, direction) == (V3 { x: 0, y: 0, z: 0 })
}

/// The right vector of the camera, not normalised: `up x direction`.
pub open spec fn side_of(direction: V3, up: V3) -> V3 {
    cross(up, direction)
}

/// The upward vector of the camera made orthogonal to the direction, not
/// normalised: `direction x (up x direction)`.
pub open spec fn upward_of(direction: V3, up: V3) -> V3 {
    cross(direction, side_of(direction, up))
}

/// The basis of a camera and what the view matrix needs besides.
#[derive(Clone, Copy, Debug, PartialEq, Eq, Structural)]
pub struct ViewFrame {
    /// The right vector `s`.
    pub side: Wide3,
    /// The upward vector `v`.
    pub up: Wide3,
    /// The forward vector `d`.
    pub forward: Wide3,
    /// `(-p . s, -p . v, -p . d)`, with `p` in tenths of a unit.
    pub translation: Wide3,
    /// `|s|^2`.
    pub side_norm_squared: i128,
    /// `|v|^2`.
    pub up_norm_squared: i128,
    /// `|d|^2`.
    pub forward_norm_squared: i128,
}

impl ViewFrame {
    /// This is the frame of the camera at `position`, looking along
    /// `direction`, with `up` upward.
    pub open spec fn describes(self, position: V3, direction: V3, up: V3) -> bool {
        &&& self.side@ == side_of(direction, up)
        &&& self.up@ == upward_of(direction, up)
        &&& self.forward@ == direction
        &&& self.translation@ == (V3 {
            x: -dot(position, side_of(direction, up)),
            y: -dot(position, upward_of(direction, up)),
            z: -dot(position, direction),
        })
        &&& self.side_norm_squared == norm_squared(side_of(direction, up))
        &&& self.up_norm_squared == norm_squared(upward_of(direction, up))
        &&& self.forward_norm_squared == norm_squared(direction)
    }
}

proof fn lemma_square_positive(x: int)
    by (nonlinear_arith)
    ensures
        x * x >= 0,
        x != 0 ==> x * x > 0,
{
}

/// A squared length is never negative, and zero only for the zero vector.
pub proof fn lemma_norm_positive(a: V3)
    ensures
        norm_squared(a) >= 0,
        norm_squared(a) == 0 <==> a == (V3 { x: 0, y: 0, z: 0 }),
{
    lemma_square_positive(a.x);
    lemma_square_positive(a.y);
    lemma_square_positive(a.z);
}

/// The three vectors of a camera frame are orthogonal to each other, and
/// they are right-handed: `s x v` points along `d`. The upward vector is
/// as long as the product of the other two lengths, so each of the three,
/// divided by the root of its squared length, has length one. Unless the
/// camera is degenerate, none of the three is zero.
pub proof fn lemma_frame_orthogonal(direction: V3, up: V3)
    ensures
        dot(side_of(direction, up), upward_of(direction, up)) == 0,
        dot(side_of(direction, up), direction) == 0,
        dot(upward_of(direction, up), direction) == 0,
        norm_squared(upward_of(direction, up)) == norm_squared(direction) * norm_squared(
            side_of(direction, up),
        ),
        dot(cross(side_of(direction, up), upward_of(direction, up)), direction) == norm_squared(
            upward_of(direction, up),
        ),
        !degenerate(direction, up) ==> norm_squared(side_of(direction, up)) > 0 && norm_squared(
            direction,
        ) > 0 && norm_squared(upward_of(direction, up)) > 0,
{
    let d = direction;
    let s = side_of(direction, up);
    let v = upward_of(direction, up);
    lemma_cross_orthogonal(up, d);
    lemma_cross_orthogonal(d, s);
    assert(dot(s, v) == dot(v, s)) by (nonlinear_arith)
        requires
            dot(s, v) == s.x * v.x + s.y * v.y + s.z * v.z,
            dot(v, s) == v.x * s.x + v.y * s.y + v.z * s.z,
    ;
    assert(dot(d, s) == dot(s, d)) by (nonlinear_arith)
        requires
            dot(s, d) == s.x * d.x + s.y * d.y + s.z * d.z,
            dot(d, s) == d.x * s.x + d.y * s.y + d.z * s.z,
    ;
    lemma_cross_norm(d, s);
    assert(dot(d, s) * dot(d, s) == 0);
    lemma_triple_product_rotates(s, v, d);
    lemma_norm_positive(s);
    lemma_norm_positive(d);
    lemma_norm_positive(v);
    if !degenerate(direction, up) {
        if d == (V3 { x: 0, y: 0, z: 0 }) {
            assert(up.y * 0 - up.z * 0 == 0 && up.z * 0 - up.x * 0 == 0 && up.x * 0 - up.y * 0
                == 0);
            assert(false);
        }
        assert(norm_squared(d) * norm_squared(s) > 0) by (nonlinear_arith)
            requires
                norm_squared(d) > 0,
                norm_squared(s) > 0,
        ;
    }
}

/// Whether the camera is degenerate.
pub fn is_degenerate(direction: &Axis3, up: &Axis3) -> (d: bool)
    ensures
        d == degenerate(direction@, up@),
{
    let side = side(direction, up);
    side.x == 0 && side.y == 0 && side.z == 0
}

/// `2^15`, a bound on the components of an [`Axis3`].
spec fn axis_limit() -> int {
    0x8000
}

/// `2^31`, a bound on the components of a right vector.
spec fn side_limit() -> int {
    0x8000_0000
}

fn side(direction: &Axis3, up: &Axis3) -> (s: Wide3)
    ensures
        s@ == side_of(direction@, up@),
        bounded(s@, side_limit()),
{
    let u = up.widen();
    let d = direction.widen();
    proof {
        lemma_product_bound(u.y as int, d.z as int, axis_limit(), axis_limit());
        lemma_product_bound(u.z as int, d.y as int, axis_limit(), axis_limit());
        lemma_product_bound(u.z as int, d.x as int, axis_limit(), axis_limit());
        lemma_product_bound(u.x as int, d.z as int, axis_limit(), axis_limit());
        lemma_product_bound(u.x as int, d.y as int, axis_limit(), axis_limit());
        lemma_product_bound(u.y as int, d.x as int, axis_limit(), axis_limit());
        assert(axis_limit() * axis_limit() == 0x4000_0000);
    }
    u.cross(&d)
}

/// The frame of the camera at `position` (in tenths of a unit), looking
/// along `direction`, with `up` upward. Neither vector need have unit
/// length, and `up` need not be orthogonal to `direction`.
pub fn view_matrix(position: &Vec3, direction: &Axis3, up: &Axis3) -> (frame: ViewFrame)
    requires
        !degenerate(direction@, up@),
    ensures
        frame.describes(position@, direction@, up@),
        frame.side_norm_squared > 0,
        frame.up_norm_squared > 0,
        frame.forward_norm_squared > 0,
{
    let p = position.widen();
    let d = direction.widen();
    let s = side(direction, up);
    proof {
        lemma_product_bound(d.y as int, s.z as int, axis_limit(), side_limit());
        lemma_product_bound(d.z as int, s.y as int, axis_limit(), side_limit());
        lemma_product_bound(d.z as int, s.x as int, axis_limit(), side_limit());
        lemma_product_bound(d.x as int, s.z as int, axis_limit(), side_limit());
        lemma_product_bound(d.x as int, s.y as int, axis_limit(), side_limit());
        lemma_product_bound(d.y as int, s.x as int, axis_limit(), side_limit());
        assert(axis_limit() * side_limit() == 0x4000_0000_0000);
    }
    let v = d.cross(&s);
    let ps = p.dot(&s);
    let pv = p.dot(&v);
    let pd = p.dot(&d);
    proof {
        lemma_product_bound(p.x as int, s.x as int, 0x8000_0000_0000_0000, side_limit());
        lemma_product_bound(p.y as int, s.y as int, 0x8000_0000_0000_0000, side_limit());
        lemma_product_bound(p.z as int, s.z as int, 0x8000_0000_0000_0000, side_limit());
        lemma_product_bound(p.x as int, v.x as int, 0x8000_0000_0000_0000, 0x8000_0000_0000);
        lemma_product_bound(p.y as int, v.y as int, 0x8000_0000_0000_0000, 0x8000_0000_0000);
        lemma_product_bound(p.z as int, v.z as int, 0x8000_0000_0000_0000, 0x8000_0000_0000);
        lemma_product_bound(p.x as int, d.x as int, 0x8000_0000_0000_0000, axis_limit());
        lemma_product_bound(p.y as int, d.y as int, 0x8000_0000_0000_0000, axis_limit());
        lemma_product_bound(p.z as int, d.z as int, 0x8000_0000_0000_0000, axis_limit());
        assert(0x8000_0000_0000_0000int * side_limit() == 0x4000_0000_0000_0000_0000_0000);
        assert(0x8000_0000_0000_0000int * 0x8000_0000_0000int
            == 0x4000_0000_0000_0000_0000_0000_0000);
        assert(0x8000_0000_0000_0000int * axis_limit() == 0x4000_0000_0000_0000_0000);
        lemma_frame_orthogonal(direction@, up@);
    }
    let frame = ViewFrame {
        side: s,
        up: v,
        forward: d,
        translation: Wide3 { x: -ps, y: -pv, z: -pd },
        side_norm_squared: s.norm_squared(),
        up_norm_squared: v.norm_squared(),
        forward_norm_squared: d.norm_squared(),
    };
    frame
}

} // verus!
