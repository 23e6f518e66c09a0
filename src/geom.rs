//! Points, axis-aligned boxes and the two collision predicates.
use vstd::prelude::*;

verus! {

/// A point, displacement, velocity or size on the play field.
#[derive(Clone, Copy, Debug, PartialEq, Eq, Structural)]
pub struct Vec2 {
    pub x: i32,
    pub y: i32,
}

impl Vec2 {
    pub fn new(x: i32, y: i32) -> (r: Vec2)
        ensures
            r.x == x,
            r.y == y,
    {
        Vec2 { x, y }
    }
}

pub open spec fn abs(v: int) -> int {
    if v < 0 { -v } else { v }
}

/// The largest coordinate that a position can hold.
pub open spec fn coord_max() -> int {
    i32::MAX as int
}

/// The smallest coordinate that a position can hold.
pub open spec fn coord_min() -> int {
    i32::MIN as int
}

/// `v` held to the coordinate range: positions stop at its limits.
pub open spec fn sat(v: int) -> int {
    if v > coord_max() {
        coord_max()
    } else if v < coord_min() {
        coord_min()
    } else {
        v
    }
}

/// Holds a wide intermediate value to the coordinate range.
pub fn saturate(v: i64) -> (r: i32)
    ensures
        r == sat(v as int),
{
    if v > i32::MAX as i64 {
        i32::MAX
    } else if v < i32::MIN as i64 {
        i32::MIN
    } else {
        v as i32
    }
}

/// The displacement `v * dt` of a speed over a duration, exactly.
pub fn scaled(v: i32, dt: u32) -> (r: i64)
    ensures
        r == v * dt,
        -0x8000_0000 * 0xffff_ffff <= r <= 0x7fff_ffff * 0xffff_ffff,
{
    proof {
        let vi = v as int;
        let di = dt as int;
        assert(-0x8000_0000 * 0xffff_ffff <= vi * di <= 0x7fff_ffff * 0xffff_ffff)
            by (nonlinear_arith)
            requires
                -0x8000_0000 <= vi <= 0x7fff_ffff,
                0 <= di <= 0xffff_ffff,
        ;
    }
    (v as i64) * (dt as i64)
}

/// Overlap of two boxes given by centre and full size, with strict edges: boxes
/// that only touch do not overlap. Every coordinate is doubled so that the half
/// sizes stay whole: `a.min < b.max && a.max > b.min` on both axes.
pub open spec fn boxes_overlap(a_pos: Vec2, a_size: Vec2, b_pos: Vec2, b_size: Vec2) -> bool {
    &&& 2 * a_pos.x - a_size.x < 2 * b_pos.x + b_size.x
    &&& 2 * a_pos.x + a_size.x > 2 * b_pos.x - b_size.x
    &&& 2 * a_pos.y - a_size.y < 2 * b_pos.y + b_size.y
    &&& 2 * a_pos.y + a_size.y > 2 * b_pos.y - b_size.y
}

/// An axis-aligned rectangle, held by its edges at twice the field's scale so
/// that a rectangle of odd size has whole edges.
#[derive(Clone, Copy, Debug, PartialEq, Eq, Structural)]
pub struct Rect {
    pub min_x2: i64,
    pub min_y2: i64,
    pub max_x2: i64,
    pub max_y2: i64,
}

impl Rect {
    /// The rectangle of the given full size centred at `center`.
    pub fn from_center_size(center: Vec2, size: Vec2) -> (r: Rect)
        ensures
            r.min_x2 == 2 * center.x - size.x,
            r.max_x2 == 2 * center.x + size.x,
            r.min_y2 == 2 * center.y - size.y,
            r.max_y2 == 2 * center.y + size.y,
    {
        Rect {
            min_x2: 2 * (center.x as i64) - size.x as i64,
            min_y2: 2 * (center.y as i64) - size.y as i64,
            max_x2: 2 * (center.x as i64) + size.x as i64,
            max_y2: 2 * (center.y as i64) + size.y as i64,
        }
    }

    pub open spec fn overlaps_spec(&self, other: &Rect) -> bool {
        &&& self.min_x2 < other.max_x2
        &&& self.max_x2 > other.min_x2
        &&& self.min_y2 < other.max_y2
        &&& self.max_y2 > other.min_y2
    }

    /// Strict overlap: rectangles that share only an edge do not overlap.
    pub fn overlaps(&self, other: &Rect) -> (r: bool)
        ensures
            r == self.overlaps_spec(other),
    {
        self.min_x2 < other.max_x2 && self.max_x2 > other.min_x2 && self.min_y2 < other.max_y2
            && self.max_y2 > other.min_y2
    }
}

/// Overlap of two boxes given by centre and full size.
pub fn aabb_collision(a_pos: Vec2, a_size: Vec2, b_pos: Vec2, b_size: Vec2) -> (r: bool)
    ensures
        r == boxes_overlap(a_pos, a_size, b_pos, b_size),
{
    let a = Rect::from_center_size(a_pos, a_size);
    let b = Rect::from_center_size(b_pos, b_size);
    a.overlaps(&b)
}

/// Squared distance between two points.
pub open spec fn dist_sq(a: Vec2, b: Vec2) -> int {
    (a.x - b.x) * (a.x - b.x) + (a.y - b.y) * (a.y - b.y)
}

/// Whether the distance between `a` and `b` is below the sum of the two half
/// widths, that is `2 * |a - b| < a_width + b_width`. A distance equal to the sum
/// is no hit.
pub open spec fn near(a: Vec2, a_width: int, b: Vec2, b_width: int) -> bool {
    &&& a_width + b_width > 0
    &&& 4 * dist_sq(a, b) < (a_width + b_width) * (a_width + b_width)
}

fn square(v: i64) -> (r: i128)
    requires
        -0x1_0000_0000 <= v <= 0x1_0000_0000,
    ensures
        r == v * v,
        0 <= r <= 0x1_0000_0000 * 0x1_0000_0000,
{
    proof {
        let vi = v as int;
        assert(0 <= vi * vi <= 0x1_0000_0000 * 0x1_0000_0000) by (nonlinear_arith)
            requires
                -0x1_0000_0000 <= vi <= 0x1_0000_0000,
        ;
    }
    (v as i128) * (v as i128)
}

/// Proximity test between two objects given by centre and width: whether their
/// centres are closer than the sum of their half widths.
pub fn proximity(a: Vec2, a_width: i32, b: Vec2, b_width: i32) -> (r: bool)
    ensures
        r == near(a, a_width as int, b, b_width as int),
{
    let reach = a_width as i64 + b_width as i64;
    if reach <= 0 {
        return false;
    }
    let dx = square(a.x as i64 - b.x as i64);
    let dy = square(a.y as i64 - b.y as i64);
    let rr = square(reach);
    4 * (dx + dy) < rr
}

/// Box overlap is symmetric; a box of positive width and height overlaps itself;
/// boxes whose centres lie at least the sum of their half sizes apart on either
/// axis never overlap.
pub proof fn lemma_overlap_laws(a_pos: Vec2, a_size: Vec2, b_pos: Vec2, b_size: Vec2)
    ensures
        boxes_overlap(a_pos, a_size, b_pos, b_size) == boxes_overlap(b_pos, b_size, a_pos, a_size),
        a_size.x > 0 && a_size.y > 0 ==> boxes_overlap(a_pos, a_size, a_pos, a_size),
        2 * abs(a_pos.x - b_pos.x) >= a_size.x + b_size.x ==> !boxes_overlap(
            a_pos,
            a_size,
            b_pos,
            b_size,
        ),
        2 * abs(a_pos.y - b_pos.y) >= a_size.y + b_size.y ==> !boxes_overlap(
            a_pos,
            a_size,
            b_pos,
            b_size,
        ),
{
}

/// The proximity test is symmetric, and centres exactly the sum of the half
/// widths apart are no hit: the comparison is strict.
pub proof fn lemma_proximity_laws(a: Vec2, a_width: int, b: Vec2, b_width: int)
    ensures
        near(a, a_width, b, b_width) == near(b, b_width, a, a_width),
        4 * dist_sq(a, b) == (a_width + b_width) * (a_width + b_width) ==> !near(
            a,
            a_width,
            b,
            b_width,
        ),
        a_width + b_width > 0 ==> (near(a, a_width, b, b_width) <==> 4 * dist_sq(a, b) < (a_width
            + b_width) * (a_width + b_width)),
{
    assert(dist_sq(a, b) == dist_sq(b, a)) by (nonlinear_arith);
}

} // verus!
