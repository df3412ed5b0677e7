use rust_webvr::geometry::abs;
use rust_webvr::geometry::is_nan;
use rust_webvr::geometry::lt;
use rust_webvr::geometry::signs_agree;
use rust_webvr::geometry::Plane;
use rust_webvr::geometry::RayMeeting;
use rust_webvr::geometry::INFINITY;
use rust_webvr::geometry::PARALLEL_LIMIT;
use rust_webvr::geometry::SIGN_BIT;

fn samples() -> Vec<f32> {
    let mut values = vec![
        0.0f32,
        -0.0,
        1.0,
        -1.0,
        0.5,
        -0.5,
        0.0000001,
        -0.0000001,
        0.00000009,
        1.75,
        3.0e38,
        -3.0e38,
        f32::MIN_POSITIVE,
        -f32::MIN_POSITIVE,
        f32::from_bits(1),
        f32::from_bits(0x8000_0001),
        f32::MAX,
        f32::MIN,
        f32::INFINITY,
        f32::NEG_INFINITY,
        f32::NAN,
        f32::from_bits(0xFFC0_0000),
        f32::from_bits(0x7F80_0001),
        f32::from_bits(0xFFFF_FFFF),
    ];
    let mut seed = 0x1234_5678u32;
    for _ in 0..200 {
        seed = seed.wrapping_mul(1_664_525).wrapping_add(1_013_904_223);
        values.push(f32::from_bits(seed));
    }
    values
}

#[test]
fn constants_are_the_patterns_they_name() {
    assert_eq!(SIGN_BIT, (-0.0f32).to_bits());
    assert_eq!(INFINITY, f32::INFINITY.to_bits());
    assert_eq!(PARALLEL_LIMIT, 0.0000001f32.to_bits());
}

#[test]
fn comparisons_agree_with_the_numbers() {
    let values = samples();
    for &a in &values {
        assert_eq!(is_nan(a.to_bits()), a.is_nan(), "is_nan({:?})", a);
        assert_eq!(abs(a.to_bits()), a.abs().to_bits(), "abs({:?})", a);
        for &b in &values {
            assert_eq!(lt(a.to_bits(), b.to_bits()), a < b, "{:?} < {:?}", a, b);
            assert_eq!(
                signs_agree(a.to_bits(), b.to_bits()),
                a.signum() == b.signum(),
                "signum({:?}) == signum({:?})",
                a,
                b
            );
        }
    }
}

fn corner(x: f32, y: f32, z: f32) -> [u32; 3] {
    [x.to_bits(), y.to_bits(), z.to_bits()]
}

#[test]
fn corners_in_order_stay_in_place() {
    let corners =
        [corner(-1.0, 1.0, 0.0), corner(1.0, 1.0, 0.0), corner(-1.0, -1.0, 0.0), corner(1.0, -1.0, 0.0)];
    let plane = Plane::new(corners, None);
    assert_eq!([plane.s1, plane.s2, plane.s3, plane.s4], corners);
    assert_eq!(plane.view_id, None);
}

#[test]
fn mirrored_corners_are_put_back() {
    let top_left = corner(-2.5, 3.0, -2.75);
    let top_right = corner(2.5, 3.0, -2.75);
    let bottom_left = corner(-2.5, 0.0, -2.75);
    let bottom_right = corner(2.5, 0.0, -2.75);
    let expected = [top_left, top_right, bottom_left, bottom_right];

    // Mirrored left to right.
    let plane = Plane::new([top_right, top_left, bottom_right, bottom_left], Some(7));
    assert_eq!([plane.s1, plane.s2, plane.s3, plane.s4], expected);
    assert_eq!(plane.view_id, Some(7));
    // Mirrored top to bottom.
    let plane = Plane::new([bottom_left, bottom_right, top_left, top_right], None);
    assert_eq!([plane.s1, plane.s2, plane.s3, plane.s4], expected);
    // Mirrored both ways.
    let plane = Plane::new([bottom_right, bottom_left, top_right, top_left], None);
    assert_eq!([plane.s1, plane.s2, plane.s3, plane.s4], expected);
}

#[test]
fn a_floor_keeps_its_rows() {
    // All corners at the same height: no row lies below the other.
    let corners =
        [corner(-2.5, 0.0, -2.75), corner(2.5, 0.0, -2.75), corner(-2.5, 0.0, 2.75), corner(2.5, 0.0, 2.75)];
    let plane = Plane::new(corners, None);
    assert_eq!([plane.s1, plane.s2, plane.s3, plane.s4], corners);
}

type V3 = [f32; 3];

fn sub(a: V3, b: V3) -> V3 {
    [a[0] - b[0], a[1] - b[1], a[2] - b[2]]
}

fn add(a: V3, b: V3) -> V3 {
    [a[0] + b[0], a[1] + b[1], a[2] + b[2]]
}

fn scale(a: V3, k: f32) -> V3 {
    [a[0] * k, a[1] * k, a[2] * k]
}

fn dot(a: V3, b: V3) -> f32 {
    a[0] * b[0] + a[1] * b[1] + a[2] * b[2]
}

fn cross(a: V3, b: V3) -> V3 {
    [a[1] * b[2] - a[2] * b[1], a[2] * b[0] - a[0] * b[2], a[0] * b[1] - a[1] * b[0]]
}

/// A rectangle of the given size, centered at `center` and facing along z.
fn wall(center: V3, size: [f32; 2]) -> Plane {
    let dx = size[0] * 0.5;
    let dy = size[1] * 0.5;
    let place = |x: f32, y: f32| add(center, [x, y, 0.0]).map(f32::to_bits);
    Plane::new([place(-dx, dy), place(dx, dy), place(-dx, -dy), place(dx, -dy)], None)
}

/// The arithmetic of a ray and a plane.
fn meet(plane: &Plane, origin: V3, direction: V3) -> RayMeeting {
    let s1 = plane.s1.map(f32::from_bits);
    let r1 = origin;
    let r2 = add(origin, scale(direction, 6.0));
    let ds21 = sub(plane.s2.map(f32::from_bits), s1);
    let ds31 = sub(plane.s3.map(f32::from_bits), s1);
    let n = cross(ds21, ds31);
    let dr = sub(r1, r2);
    let ndr = dot(n, dr);
    let t = -dot(n, sub(r1, s1)) / ndr;
    let m = add(r1, scale(dr, t));
    let dms1 = sub(m, s1);
    RayMeeting {
        denominator: ndr.to_bits(),
        point: m.map(f32::to_bits),
        along_top: dot(dms1, ds21).to_bits(),
        top_limit: dot(ds21, ds21).to_bits(),
        along_side: dot(dms1, ds31).to_bits(),
        side_limit: dot(ds31, ds31).to_bits(),
        travelled: sub(m, origin).map(f32::to_bits),
    }
}

fn cast(plane: &Plane, origin: V3, direction: V3) -> Option<V3> {
    meet(plane, origin, direction).intersect(&direction.map(f32::to_bits)).map(|point| point.map(f32::from_bits))
}

/// The wall of the room that faces the viewer, five wide and three high, and
/// a ray from the middle of the room straight at it: what the arithmetic gives.
fn meeting_at_center() -> (RayMeeting, [u32; 3]) {
    let direction = corner(0.0, 0.0, -1.0);
    let meeting = RayMeeting {
        denominator: (-90.0f32).to_bits(),
        point: corner(0.0, 1.5, -2.75),
        along_top: 12.5f32.to_bits(),
        top_limit: 25.0f32.to_bits(),
        along_side: 4.5f32.to_bits(),
        side_limit: 9.0f32.to_bits(),
        travelled: corner(0.0, 0.0, -2.75),
    };
    (meeting, direction)
}

#[test]
fn the_arithmetic_of_the_facing_wall() {
    let plane = wall([0.0, 1.5, -2.75], [5.0, 3.0]);
    let (expected, direction) = meeting_at_center();
    assert_eq!(meet(&plane, [0.0, 1.5, 0.0], direction.map(f32::from_bits)), expected);
}

#[test]
fn a_ray_through_the_center_hits_at_the_center() {
    let (meeting, direction) = meeting_at_center();
    assert!(!meeting.is_parallel());
    assert_eq!(meeting.intersect(&direction), Some(corner(0.0, 1.5, -2.75)));

    let plane = wall([0.0, 1.5, -2.75], [5.0, 3.0]);
    assert_eq!(cast(&plane, [0.0, 1.5, 0.0], [0.0, 0.0, -1.0]), Some([0.0, 1.5, -2.75]));
    let plane = wall([1.0, 2.0, -4.0], [2.0, 2.0]);
    assert_eq!(cast(&plane, [1.0, 2.0, 0.0], [0.0, 0.0, -1.0]), Some([1.0, 2.0, -4.0]));
    // Off the center but within the wall.
    assert_eq!(cast(&plane, [1.5, 2.5, 0.0], [0.0, 0.0, -1.0]), Some([1.5, 2.5, -4.0]));
    // Beside the wall.
    assert_eq!(cast(&plane, [3.5, 2.0, 0.0], [0.0, 0.0, -1.0]), None);
}

#[test]
fn a_ray_along_the_plane_misses() {
    let (mut meeting, direction) = meeting_at_center();
    for denominator in [0.0f32, -0.0, 0.00000009, -0.00000009] {
        meeting.denominator = denominator.to_bits();
        assert!(meeting.is_parallel());
        assert_eq!(meeting.intersect(&direction), None);
    }
    for denominator in [0.0000001f32, -0.0000001, 1.0, f32::NAN] {
        meeting.denominator = denominator.to_bits();
        assert!(!meeting.is_parallel());
    }

    let plane = wall([0.0, 1.5, -2.75], [5.0, 3.0]);
    for direction in [[1.0, 0.0, 0.0], [0.0, 1.0, 0.0], [-1.0, 1.0, 0.0]] {
        assert_eq!(f32::from_bits(meet(&plane, [0.0, 1.5, 0.0], direction).denominator), 0.0);
        assert_eq!(cast(&plane, [0.0, 1.5, 0.0], direction), None);
    }
}

#[test]
fn a_ray_pointing_away_misses() {
    let (mut meeting, _) = meeting_at_center();
    meeting.travelled = corner(1.0, 2.0, -2.75);
    assert_eq!(meeting.intersect(&corner(-1.0, -2.0, 2.75)), None);
    assert_eq!(meeting.intersect(&corner(1.0, 2.0, 2.75)), None);
    assert_eq!(meeting.intersect(&corner(1.0, -2.0, -2.75)), None);
    assert_eq!(meeting.intersect(&corner(-0.0, 2.0, -2.75)), None);
    assert_eq!(meeting.intersect(&corner(1.0, 2.0, -0.5)), Some(meeting.point));

    // The line of the ray meets the wall within its bounds, behind the ray's origin.
    let plane = wall([0.0, 1.5, -2.75], [5.0, 3.0]);
    let behind = meet(&plane, [1.0, 1.0, 0.0], [-0.1, -0.1, 1.0]);
    assert_eq!(behind.travelled.map(f32::from_bits).map(f32::signum), [1.0, 1.0, -1.0]);
    assert!(!behind.is_parallel());
    assert_eq!(cast(&plane, [1.0, 1.0, 0.0], [-0.1, -0.1, 1.0]), None);
    assert!(cast(&plane, [1.0, 1.0, 0.0], [0.1, 0.1, -1.0]).is_some());
}

#[test]
fn a_point_outside_the_rectangle_misses() {
    let (meeting, direction) = meeting_at_center();
    let outside = [
        RayMeeting { along_top: (-0.5f32).to_bits(), ..meeting },
        RayMeeting { along_top: 25.5f32.to_bits(), ..meeting },
        RayMeeting { along_side: (-0.5f32).to_bits(), ..meeting },
        RayMeeting { along_side: 9.5f32.to_bits(), ..meeting },
    ];
    for meeting in outside {
        assert_eq!(meeting.intersect(&direction), None);
    }
    let on_the_edge = [
        RayMeeting { along_top: 0.0f32.to_bits(), ..meeting },
        RayMeeting { along_top: 25.0f32.to_bits(), ..meeting },
        RayMeeting { along_side: (-0.0f32).to_bits(), ..meeting },
        RayMeeting { along_side: 9.0f32.to_bits(), ..meeting },
    ];
    for meeting in on_the_edge {
        assert_eq!(meeting.intersect(&direction), Some(meeting.point));
    }
}
