//! Planar vectors and axis-aligned rectangles in fixed point.
//!
//! A rectangle is held by its two corners, `min` inclusive toward the
//! lower-left and `max` toward the upper-right. The tracked camera
//! region, the detection boxes and the border clamp all use this shape.

use vstd::prelude::*;
use crate::fixed::{SCALAR_LIMIT, tdiv, fix_mul, in_scalar_range, abs_spec};
use crate::fixed::{fixmul, lemma_tdiv_abs};

verus! {

/// A planar vector (or point) in fixed-point thousandths.
#[derive(Clone, Copy, PartialEq, Eq, Structural, Debug)]
pub struct Vec2 {
    pub x: i64,
    pub y: i64,
}

/// An axis-aligned rectangle, corners in fixed-point thousandths.
#[derive(Clone, Copy, PartialEq, Eq, Structural, Debug)]
pub struct Rect {
    pub min_x: i64,
    pub min_y: i64,
    pub max_x: i64,
    pub max_y: i64,
}

pub open spec fn vec2_in_range(v: Vec2) -> bool {
    in_scalar_range(v.x as int) && in_scalar_range(v.y as int)
}

/// Extended coordinate range: a clamped rectangle stays within three
/// scalar limits of the origin even when it is larger than the border
/// it was clamped into.
pub const COORD_EXT_LIMIT: i64 = 300_000_000;

impl Vec2 {
    pub fn zero() -> (r: Vec2)
        ensures
            r == (Vec2 { x: 0, y: 0 }),
    {
        Vec2 { x: 0, y: 0 }
    }
}

impl Rect {
    /// Proper orientation: the `min` corner is not past the `max` corner.
    pub open spec fn well_formed(self) -> bool {
        self.min_x <= self.max_x && self.min_y <= self.max_y
    }

    /// All four coordinates inside the scalar range.
    pub open spec fn in_range(self) -> bool {
        &&& in_scalar_range(self.min_x as int)
        &&& in_scalar_range(self.min_y as int)
        &&& in_scalar_range(self.max_x as int)
        &&& in_scalar_range(self.max_y as int)
    }

    /// All four coordinates inside the extended range.
    pub open spec fn in_ext_range(self) -> bool {
        &&& abs_spec(self.min_x as int) <= COORD_EXT_LIMIT
        &&& abs_spec(self.min_y as int) <= COORD_EXT_LIMIT
        &&& abs_spec(self.max_x as int) <= COORD_EXT_LIMIT
        &&& abs_spec(self.max_y as int) <= COORD_EXT_LIMIT
    }

    pub open spec fn width(self) -> int {
        self.max_x - self.min_x
    }

    pub open spec fn height(self) -> int {
        self.max_y - self.min_y
    }

    /// `inner` lies entirely inside `outer`.
    pub open spec fn contained_in(self, outer: Rect) -> bool {
        &&& outer.min_x <= self.min_x
        &&& outer.min_y <= self.min_y
        &&& self.max_x <= outer.max_x
        &&& self.max_y <= outer.max_y
    }

    pub fn zero() -> (r: Rect)
        ensures
            r == (Rect { min_x: 0, min_y: 0, max_x: 0, max_y: 0 }),
    {
        Rect { min_x: 0, min_y: 0, max_x: 0, max_y: 0 }
    }
}

/// Componentwise sum.
pub open spec fn vec2_add_spec(a: Vec2, b: Vec2) -> Vec2 {
    Vec2 { x: (a.x + b.x) as i64, y: (a.y + b.y) as i64 }
}

pub fn vec2_add(a: Vec2, b: Vec2) -> (r: Vec2)
    requires
        a.x + b.x <= i64::MAX,
        a.x + b.x >= i64::MIN,
        a.y + b.y <= i64::MAX,
        a.y + b.y >= i64::MIN,
    ensures
        r.x == a.x + b.x,
        r.y == a.y + b.y,
        r == vec2_add_spec(a, b),
{
    Vec2 { x: a.x + b.x, y: a.y + b.y }
}

/// Both components scaled by one fixed-point factor.
pub open spec fn vec2_scale_spec(a: Vec2, s: int) -> Vec2 {
    Vec2 { x: fix_mul(a.x as int, s) as i64, y: fix_mul(a.y as int, s) as i64 }
}

pub fn vec2_scale(a: Vec2, s: i64) -> (r: Vec2)
    requires
        abs_spec(a.x as int) * abs_spec(s as int) <= i64::MAX,
        abs_spec(a.y as int) * abs_spec(s as int) <= i64::MAX,
    ensures
        r == vec2_scale_spec(a, s as int),
        r.x == fix_mul(a.x as int, s as int),
        r.y == fix_mul(a.y as int, s as int),
{
    Vec2 { x: fixmul(a.x, s), y: fixmul(a.y, s) }
}

/// Componentwise fixed-point product.
pub open spec fn vec2_mul_spec(a: Vec2, b: Vec2) -> Vec2 {
    Vec2 { x: fix_mul(a.x as int, b.x as int) as i64, y: fix_mul(a.y as int, b.y as int) as i64 }
}

pub fn vec2_mul(a: Vec2, b: Vec2) -> (r: Vec2)
    requires
        abs_spec(a.x as int) * abs_spec(b.x as int) <= i64::MAX,
        abs_spec(a.y as int) * abs_spec(b.y as int) <= i64::MAX,
    ensures
        r == vec2_mul_spec(a, b),
        r.x == fix_mul(a.x as int, b.x as int),
        r.y == fix_mul(a.y as int, b.y as int),
{
    Vec2 { x: fixmul(a.x, b.x), y: fixmul(a.y, b.y) }
}

/// Centre point of a rectangle, each axis rounded toward zero.
pub open spec fn rect_center_spec(r: Rect) -> Vec2 {
    Vec2 { x: tdiv(r.min_x + r.max_x, 2) as i64, y: tdiv(r.min_y + r.max_y, 2) as i64 }
}

pub fn rect_center(r: Rect) -> (c: Vec2)
    requires
        r.in_ext_range(),
    ensures
        c == rect_center_spec(r),
        abs_spec(c.x as int) <= COORD_EXT_LIMIT,
        abs_spec(c.y as int) <= COORD_EXT_LIMIT,
        r.in_range() ==> vec2_in_range(c),
{
    let sx: i64 = r.min_x + r.max_x;
    let sy: i64 = r.min_y + r.max_y;
    proof {
        lemma_tdiv_abs(sx as int, 2);
        lemma_tdiv_abs(sy as int, 2);
    }
    Vec2 { x: sx / 2, y: sy / 2 }
}

/// Signed area: width times height.
pub open spec fn rect_area_spec(r: Rect) -> int {
    r.width() * r.height()
}

pub fn rect_area(r: Rect) -> (a: i64)
    requires
        r.in_range(),
    ensures
        a == rect_area_spec(r),
{
    let w: i64 = r.max_x - r.min_x;
    let h: i64 = r.max_y - r.min_y;
    proof {
        crate::fixed::lemma_mul_bound(
            w as int,
            h as int,
            2 * SCALAR_LIMIT as int,
            2 * SCALAR_LIMIT as int,
        );
    }
    w * h
}

/// A `w` by `h` rectangle whose centre is the origin (up to the
/// rounding of odd sides toward the `min` corner).
pub open spec fn rect_centered_on_origin_spec(w: int, h: int) -> Rect {
    Rect {
        min_x: -tdiv(w, 2) as i64,
        min_y: -tdiv(h, 2) as i64,
        max_x: (w - tdiv(w, 2)) as i64,
        max_y: (h - tdiv(h, 2)) as i64,
    }
}

pub fn rect_centered_on_origin(w: i64, h: i64) -> (r: Rect)
    requires
        0 <= w <= SCALAR_LIMIT,
        0 <= h <= SCALAR_LIMIT,
    ensures
        r == rect_centered_on_origin_spec(w as int, h as int),
        r.well_formed(),
        r.in_range(),
        r.width() == w,
        r.height() == h,
{
    proof {
        lemma_tdiv_abs(w as int, 2);
        lemma_tdiv_abs(h as int, 2);
    }
    let hw: i64 = w / 2;
    let hh: i64 = h / 2;
    Rect { min_x: -hw, min_y: -hh, max_x: w - hw, max_y: h - hh }
}

/// The rectangle shifted by a vector.
pub open spec fn rect_translate_spec(r: Rect, v: Vec2) -> Rect {
    Rect {
        min_x: (r.min_x + v.x) as i64,
        min_y: (r.min_y + v.y) as i64,
        max_x: (r.max_x + v.x) as i64,
        max_y: (r.max_y + v.y) as i64,
    }
}

pub fn rect_translate(r: Rect, v: Vec2) -> (t: Rect)
    requires
        r.min_x + v.x >= i64::MIN,
        r.min_y + v.y >= i64::MIN,
        r.max_x + v.x <= i64::MAX,
        r.max_y + v.y <= i64::MAX,
        r.well_formed(),
    ensures
        t == rect_translate_spec(r, v),
        t.width() == r.width(),
        t.height() == r.height(),
        t.well_formed(),
{
    Rect { min_x: r.min_x + v.x, min_y: r.min_y + v.y, max_x: r.max_x + v.x, max_y: r.max_y + v.y }
}

/// Per-axis shift that brings `r` just inside `b`: toward positive if `r`
/// starts below `b`, toward negative if it ends past `b`, else nothing.
pub open spec fn constrain_shift(r_min: int, r_max: int, b_min: int, b_max: int) -> int {
    if r_min < b_min {
        b_min - r_min
    } else if r_max > b_max {
        b_max - r_max
    } else {
        0
    }
}

/// The rectangle shifted (never resized) so that it lies inside the
/// border; a rectangle larger than the border is aligned to the
/// border's `min` corner.
pub open spec fn rect_constrain_spec(r: Rect, b: Rect) -> Rect {
    rect_translate_spec(
        r,
        Vec2 {
            x: constrain_shift(r.min_x as int, r.max_x as int, b.min_x as int, b.max_x as int) as i64,
            y: constrain_shift(r.min_y as int, r.max_y as int, b.min_y as int, b.max_y as int) as i64,
        },
    )
}

pub fn rect_constrain(r: Rect, b: Rect) -> (t: Rect)
    requires
        r.well_formed(),
        b.well_formed(),
        b.in_range(),
        abs_spec(r.min_x as int) <= i64::MAX / 4,
        abs_spec(r.min_y as int) <= i64::MAX / 4,
        abs_spec(r.max_x as int) <= i64::MAX / 4,
        abs_spec(r.max_y as int) <= i64::MAX / 4,
    ensures
        t == rect_constrain_spec(r, b),
        t.width() == r.width(),
        t.height() == r.height(),
        t.well_formed(),
        r.width() <= b.width() && r.height() <= b.height() ==> t.contained_in(b),
        r.width() <= b.width() && r.height() <= b.height() ==> t.in_range(),
        r.width() <= 2 * SCALAR_LIMIT && r.height() <= 2 * SCALAR_LIMIT ==> t.in_ext_range(),
{
    let dx: i64 = if r.min_x < b.min_x {
        b.min_x - r.min_x
    } else if r.max_x > b.max_x {
        b.max_x - r.max_x
    } else {
        0
    };
    let dy: i64 = if r.min_y < b.min_y {
        b.min_y - r.min_y
    } else if r.max_y > b.max_y {
        b.max_y - r.max_y
    } else {
        0
    };
    Rect { min_x: r.min_x + dx, min_y: r.min_y + dy, max_x: r.max_x + dx, max_y: r.max_y + dy }
}

} // verus!
