//! Planes of the scene and the decisions of the gaze ray that is cast at them.
//!
//! The arithmetic of a ray and a plane is the caller's. What is decided here
//! is decided by comparing numbers, and a comparison of two single-precision
//! numbers can be read off their bit patterns: the top bit is the sign, the
//! other bits grow with the magnitude, and a pattern above that of infinity
//! is no number at all.

use vstd::prelude::*;
use crate::model::Single;
use crate::model::ZERO;

verus! {

/// The sign bit of a single-precision pattern.
pub const SIGN_BIT: Single = 0x8000_0000;

/// The pattern of positive infinity. Every larger magnitude is not a number.
pub const INFINITY: Single = 0x7F80_0000;

/// A denominator of a smaller magnitude than this counts as zero: the ray
/// runs along the plane. It is 0.0000001 in single precision.
pub const PARALLEL_LIMIT: Single = 0x33D6_BF95;

/// Whether the sign bit of a pattern is set.
pub open spec fn negative(x: Single) -> bool {
    x >= SIGN_BIT
}

/// The pattern without its sign bit.
pub open spec fn magnitude(x: Single) -> Single {
    if x >= SIGN_BIT {
        (x - SIGN_BIT) as Single
    } else {
        x
    }
}

/// Whether a pattern stands for no number.
pub open spec fn not_a_number(x: Single) -> bool {
    magnitude(x) > INFINITY
}

/// Where a number lies on the line: its magnitude, counted downwards from
/// zero where the sign bit is set. The two zeros lie at the same place.
pub open spec fn place(x: Single) -> int {
    if negative(x) {
        -(magnitude(x) as int)
    } else {
        magnitude(x) as int
    }
}

/// `a < b` as numbers. False where either is no number.
pub open spec fn less(a: Single, b: Single) -> bool {
    !not_a_number(a) && !not_a_number(b) && place(a) < place(b)
}

/// Whether two numbers have the same sign, where a zero has the sign that
/// its pattern carries. False where either is no number.
pub open spec fn same_sign(a: Single, b: Single) -> bool {
    !not_a_number(a) && !not_a_number(b) && negative(a) == negative(b)
}

/// The pattern without its sign bit: the absolute value.
pub fn abs(x: Single) -> (m: Single)
    ensures
        m == magnitude(x),
{
    if x >= SIGN_BIT {
        x - SIGN_BIT
    } else {
        x
    }
}

/// Whether a pattern stands for no number.
pub fn is_nan(x: Single) -> (nan: bool)
    ensures
        nan == not_a_number(x),
{
    abs(x) > INFINITY
}

/// `a < b` as numbers.
pub fn lt(a: Single, b: Single) -> (smaller: bool)
    ensures
        smaller == less(a, b),
{
    if is_nan(a) || is_nan(b) {
        return false;
    }
    let a_negative = a >= SIGN_BIT;
    let b_negative = b >= SIGN_BIT;
    if a_negative && b_negative {
        abs(a) > abs(b)
    } else if a_negative {
        abs(a) > 0 || abs(b) > 0
    } else if b_negative {
        false
    } else {
        a < b
    }
}

/// Whether two numbers have the same sign.
pub fn signs_agree(a: Single, b: Single) -> (agree: bool)
    ensures
        agree == same_sign(a, b),
{
    if is_nan(a) || is_nan(b) {
        return false;
    }
    (a >= SIGN_BIT) == (b >= SIGN_BIT)
}

/// A flat rectangle in the scene that the gaze ray can meet.
///
/// ```text
/// s1 +------+ s2
///    |      |
/// s3 +------+ s4
/// ```
#[derive(Copy, Clone, Debug, PartialEq, Eq)]
pub struct Plane {
    pub s1: [Single; 3],
    pub s2: [Single; 3],
    pub s3: [Single; 3],
    pub s4: [Single; 3],
    /// The external texture that the plane shows, where it shows a video or camera surface.
    pub view_id: Option<u32>,
}

/// The plane of four corners, given row by row. Where the first row lies
/// below the second, the rows change places; where after that the first
/// corner lies to the right of the second, the columns change places.
pub open spec fn plane_of(corners: [[Single; 3]; 4], view_id: Option<u32>) -> Plane {
    let rows = if less(corners[0][1], corners[2][1]) {
        [corners[2], corners[3], corners[0], corners[1]]
    } else {
        corners
    };
    if less(rows[1][0], rows[0][0]) {
        Plane { s1: rows[1], s2: rows[0], s3: rows[3], s4: rows[2], view_id }
    } else {
        Plane { s1: rows[0], s2: rows[1], s3: rows[2], s4: rows[3], view_id }
    }
}

impl Plane {
    /// The plane of four corners as a transform has placed them: the images
    /// of the top left, top right, bottom left and bottom right corner, in
    /// this order. A transform may have mirrored them; they are put back so
    /// that `s1` is the top left corner and `s4` the bottom right one.
    pub fn new(corners: [[Single; 3]; 4], view_id: Option<u32>) -> (plane: Plane)
        ensures
            plane == plane_of(corners, view_id),
    {
        let mut s1 = corners[0];
        let mut s2 = corners[1];
        let mut s3 = corners[2];
        let mut s4 = corners[3];

        if lt(s1[1], s3[1]) {
            std::mem::swap(&mut s1, &mut s3);
            std::mem::swap(&mut s2, &mut s4);
        }
        if lt(s2[0], s1[0]) {
            std::mem::swap(&mut s1, &mut s2);
            std::mem::swap(&mut s3, &mut s4);
        }
        Plane { s1, s2, s3, s4, view_id }
    }
}

/// What the caller has worked out of a ray and a plane.
#[derive(Copy, Clone, Debug, PartialEq, Eq)]
pub struct RayMeeting {
    /// The plane's normal times the ray's reversed direction. Zero where the ray runs along the plane.
    pub denominator: Single,
    /// The point where the ray's line meets the plane.
    pub point: [Single; 3],
    /// How far the point lies from `s1` along the top edge, times the edge's length.
    pub along_top: Single,
    /// The square of the top edge's length.
    pub top_limit: Single,
    /// How far the point lies from `s1` along the left edge, times the edge's length.
    pub along_side: Single,
    /// The square of the left edge's length.
    pub side_limit: Single,
    /// The way from the ray's origin to the point.
    pub travelled: [Single; 3],
}

impl RayMeeting {
    /// The ray runs along the plane, or so nearly that the point is of no use.
    pub open spec fn parallel(self) -> bool {
        less(magnitude(self.denominator), PARALLEL_LIMIT)
    }

    /// The point lies outside the rectangle.
    pub open spec fn out_of_bounds(self) -> bool {
        ||| less(self.along_top, ZERO)
        ||| less(self.top_limit, self.along_top)
        ||| less(self.along_side, ZERO)
        ||| less(self.side_limit, self.along_side)
    }

    /// The point lies ahead of the ray: on every axis the way to it has the sign of the ray's direction.
    pub open spec fn ahead(self, direction: [Single; 3]) -> bool {
        &&& same_sign(self.travelled[0], direction[0])
        &&& same_sign(self.travelled[1], direction[1])
        &&& same_sign(self.travelled[2], direction[2])
    }

    /// Where the ray hits the plane: at the point, unless the ray runs along
    /// the plane, the point lies outside the rectangle, or the point lies behind the ray.
    pub open spec fn hit(self, direction: [Single; 3]) -> Option<[Single; 3]> {
        if self.parallel() || self.out_of_bounds() || !self.ahead(direction) {
            None
        } else {
            Some(self.point)
        }
    }

    /// Whether the ray runs along the plane. The caller asks this before it
    /// divides by the denominator.
    pub fn is_parallel(&self) -> (parallel: bool)
        ensures
            parallel == self.parallel(),
    {
        lt(abs(self.denominator), PARALLEL_LIMIT)
    }

    /// Decides whether a ray with the given direction hits the plane, and where.
    pub fn intersect(&self, direction: &[Single; 3]) -> (hit: Option<[Single; 3]>)
        ensures
            hit == self.hit(*direction),
    {
        if self.is_parallel() {
            return None;
        }
        if lt(self.along_top, ZERO) || lt(self.top_limit, self.along_top) || lt(self.along_side, ZERO) || lt(
            self.side_limit,
            self.along_side,
        ) {
            return None;
        }
        if signs_agree(self.travelled[0], direction[0]) && signs_agree(self.travelled[1], direction[1])
            && signs_agree(self.travelled[2], direction[2]) {
            Some(self.point)
        } else {
            None
        }
    }
}

/// After the corners were put in order, the first corner does not lie to the
/// right of the second, and the four corners are the four that were given.
pub proof fn law_corners_ordered(corners: [[Single; 3]; 4], view_id: Option<u32>)
    ensures
        !less(plane_of(corners, view_id).s2[0], plane_of(corners, view_id).s1[0]),
        plane_of(corners, view_id).view_id == view_id,
        ({
            let plane = plane_of(corners, view_id);
            let placed = seq![plane.s1, plane.s2, plane.s3, plane.s4];
            forall|i: int| 0 <= i < 4 ==> placed.contains(#[trigger] corners[i])
        }),
{
    let plane = plane_of(corners, view_id);
    let placed = seq![plane.s1, plane.s2, plane.s3, plane.s4];
    assert(placed[0] == plane.s1 && placed[1] == plane.s2 && placed[2] == plane.s3 && placed[3] == plane.s4);
}

/// A ray that runs along the plane hits nothing: with a denominator of zero,
/// of either sign, there is no hit, whatever else was worked out.
pub proof fn law_parallel_ray_misses(meeting: RayMeeting, direction: [Single; 3])
    requires
        meeting.denominator == ZERO || meeting.denominator == SIGN_BIT,
    ensures
        meeting.hit(direction) is None,
{
}

/// A ray that points away from the plane hits nothing: where the way to the
/// point has the opposite sign of the ray's direction on every axis, or on
/// any one, there is no hit.
pub proof fn law_ray_pointing_away_misses(meeting: RayMeeting, direction: [Single; 3], axis: int)
    requires
        0 <= axis < 3,
        negative(meeting.travelled[axis]) != negative(direction[axis]),
    ensures
        meeting.hit(direction) is None,
{
}

/// A hit is the point that the caller worked out, and it lies within the
/// rectangle and ahead of the ray.
pub proof fn law_hit_is_the_point(meeting: RayMeeting, direction: [Single; 3])
    ensures
        meeting.hit(direction) is Some ==> {
            &&& meeting.hit(direction) == Some(meeting.point)
            &&& !meeting.parallel()
            &&& !meeting.out_of_bounds()
            &&& meeting.ahead(direction)
        },
{
}

} // verus!
