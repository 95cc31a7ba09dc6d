//! The exact part of the perspective projection.
//!
//! With `f = 1 / tan(fov / 2)` the projection matrix is
//!
//! ```text
//! [ f * aspect, 0, 0,            0 ]
//! [ 0,          f, 0,            0 ]
//! [ 0,          0, depth_scale,  1 ]
//! [ 0,          0, depth_offset, 0 ]
//! ```
//!
//! The field of view is a third of pi, so `f` is the square root of three:
//! the caller supplies it. The three other terms are fractions.

use vstd::prelude::*;

verus! {

/// The field of view is pi divided by this.
pub const FOV_DIVISOR: u32 = 3;

/// The near clipping plane, in tenths of a world unit.
pub const ZNEAR: i64 = 1;

/// The far clipping plane, in tenths of a world unit.
pub const ZFAR: i64 = 10240;

/// The fraction `num / den`. It is not reduced.
#[derive(Clone, Copy, Debug, PartialEq, Eq, Structural)]
pub struct Ratio {
    pub num: i64,
    pub den: i64,
}

/// The terms of the projection matrix that depend on no square root.
#[derive(Clone, Copy, Debug, PartialEq, Eq, Structural)]
pub struct Perspective {
    /// Height over width of the viewport.
    pub aspect: Ratio,
    /// `(zfar + znear) / (zfar - znear)`.
    pub depth_scale: Ratio,
    /// `-(2 * zfar * znear) / (zfar - znear)`, in world units.
    pub depth_offset: Ratio,
}

/// The terms of the projection onto a viewport of the given size.
pub open spec fn perspective_of(width: u32, height: u32) -> Perspective {
    Perspective {
        aspect: Ratio { num: height as i64, den: width as i64 },
        depth_scale: Ratio { num: (ZFAR + ZNEAR) as i64, den: (ZFAR - ZNEAR) as i64 },
        depth_offset: Ratio {
            num: (-(2 * ZFAR * ZNEAR)) as i64,
            den: (10 * (ZFAR - ZNEAR)) as i64,
        },
    }
}

/// The terms of the projection onto a viewport of `width` by `height`
/// pixels. A viewport without width has no aspect ratio.
pub fn perspective_matrix(width: u32, height: u32) -> (p: Perspective)
    requires
        width != 0,
    ensures
        p == perspective_of(width, height),
        p.aspect.num == height,
        p.aspect.den == width,
        p.depth_scale == (Ratio { num: 10241, den: 10239 }),
        p.depth_offset == (Ratio { num: (-20480) as i64, den: 102390 }),
{
    Perspective {
        aspect: Ratio { num: height as i64, den: width as i64 },
        depth_scale: Ratio { num: ZFAR + ZNEAR, den: ZFAR - ZNEAR },
        depth_offset: Ratio { num: -(2 * ZFAR * ZNEAR), den: 10 * (ZFAR - ZNEAR) },
    }
}

} // verus!
