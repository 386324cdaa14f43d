//! Fixed-point 3D vectors, angles and axis-aligned bounding boxes.
//!
//! Lengths are in hundredths of a world unit, angles in hundredths of a
//! degree. An angle component is always kept in `[0, 36000)`.

use vstd::prelude::*;

verus! {

/// A 3-component integer vector, used for positions, rotations and scales.
/// Scale components are in hundredths: a scale of `100` is factor one.
#[derive(Clone, Copy, PartialEq, Eq, Structural, Debug)]
pub struct Vec3i {
    pub x: i64,
    pub y: i64,
    pub z: i64,
}

/// Full turn, in hundredths of a degree.
pub const FULL_TURN: i64 = 36000;

pub open spec fn angle_wf(a: int) -> bool {
    0 <= a < FULL_TURN
}

pub open spec fn rot_wf(r: Vec3i) -> bool {
    angle_wf(r.x as int) && angle_wf(r.y as int) && angle_wf(r.z as int)
}

/// All components of `v` lie in `[-bound, bound]`.
pub open spec fn vec3_bounded(v: Vec3i, bound: int) -> bool {
    &&& -bound <= v.x <= bound
    &&& -bound <= v.y <= bound
    &&& -bound <= v.z <= bound
}

pub open spec fn spec_add_angle(a: int, d: int) -> int {
    if a + d < 0 {
        a + d + FULL_TURN
    } else if a + d >= FULL_TURN {
        a + d - FULL_TURN
    } else {
        a + d
    }
}

/// Adds an angle increment, keeping the result in `[0, 36000)`.
pub fn add_angle(a: i64, d: i64) -> (r: i64)
    requires
        angle_wf(a as int),
        -FULL_TURN <= d <= FULL_TURN,
    ensures
        r == spec_add_angle(a as int, d as int),
        angle_wf(r as int),
{
    let s: i64 = a + d;
    if s < 0 {
        s + FULL_TURN
    } else if s >= FULL_TURN {
        s - FULL_TURN
    } else {
        s
    }
}

/// An axis-aligned bounding box given by two corner points.
#[derive(Clone, Copy, PartialEq, Eq, Structural, Debug)]
pub struct Aabb {
    pub min: Vec3i,
    pub max: Vec3i,
}

/// Closed-box overlap on every axis.
pub open spec fn spec_intersects(a: Aabb, b: Aabb) -> bool {
    &&& a.min.x <= b.max.x && b.min.x <= a.max.x
    &&& a.min.y <= b.max.y && b.min.y <= a.max.y
    &&& a.min.z <= b.max.z && b.min.z <= a.max.z
}

/// Decides whether two bounding boxes overlap.
pub fn boxes_intersect(a: &Aabb, b: &Aabb) -> (r: bool)
    ensures
        r == spec_intersects(*a, *b),
{
    a.min.x <= b.max.x && b.min.x <= a.max.x && a.min.y <= b.max.y && b.min.y <= a.max.y
        && a.min.z <= b.max.z && b.min.z <= a.max.z
}

/// Half-extent of a box side under a fixed-point scale factor.
pub open spec fn spec_scaled_half(half: int, scale: int) -> int {
    half * scale / 100
}

/// Computes `half * scale / 100` for one axis.
pub fn scaled_half(half: i64, scale: i64) -> (r: i64)
    requires
        0 <= half <= 1000,
        0 <= scale <= 1000,
    ensures
        r == spec_scaled_half(half as int, scale as int),
        0 <= r <= 10000,
{
    proof {
        assert(0 <= half * scale <= 1000000) by (nonlinear_arith)
            requires
                0 <= half <= 1000,
                0 <= scale <= 1000,
        ;
    }
    (half * scale) / 100
}

} // verus!
