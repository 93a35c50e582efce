use exact_predicates::arithmetic::{
    incircle, orient2d, Library, MAX_INCIRCLE_COORD, MAX_ORIENT2D_COORD,
};
use exact_predicates::primitives::{LineSegment, Orientation, Point};

#[test]
fn orient_points() {
    let _ = Library::init();
    let a = Point::new(0, 0);
    let b = Point::new(1, 0);
    let c = Point::new(1, 1);
    let d = Point::new(2, 0);

    // Normal
    assert!(matches!(c.orient_to_points(&a, &b), Orientation::Inside));
    assert!(matches!(c.orient_to_points(&b, &a), Orientation::Outside));
    assert!(matches!(d.orient_to_points(&a, &b), Orientation::On));
    // Degenerate
    assert!(matches!(a.orient_to_points(&a, &b), Orientation::On));
    assert!(matches!(b.orient_to_points(&a, &b), Orientation::On));
    assert!(matches!(a.orient_to_points(&a, &a), Orientation::On));
}

#[test]
fn in_circle() {
    let _ = Library::init();

    // Circle through a, b, c: center (0, 10), radius 10.
    let a = Point::new(-10, 10);
    let b = Point::new(10, 10);
    let c = Point::new(0, 20);

    // Test points
    let p1 = Point::new(0, 0); // On
    let p2 = Point::new(1, 5); // Inside
    let p3 = Point::new(1, -5); // Outside

    assert!(matches!(p1.orient_to_circle(&a, &b, &c), Orientation::On));
    assert!(matches!(p2.orient_to_circle(&a, &b, &c), Orientation::Inside));
    assert!(matches!(p3.orient_to_circle(&a, &b, &c), Orientation::Outside));
}

#[test]
fn classification_follows_the_sign() {
    assert!(matches!(Orientation::from_signed_distance(0), Orientation::On));
    assert!(matches!(Orientation::from_signed_distance(7), Orientation::Inside));
    assert!(matches!(Orientation::from_signed_distance(-7), Orientation::Outside));
}

#[test]
fn orient2d_exact_values() {
    let a = Point::new(0, 0);
    let b = Point::new(1, 0);
    let c = Point::new(1, 1);
    assert_eq!(orient2d(&a, &b, &c), 1);
    assert_eq!(orient2d(&b, &a, &c), -1);
    assert_eq!(orient2d(&a, &b, &Point::new(2, 0)), 0);
}

#[test]
fn orient2d_scale_preserves_the_sign() {
    let a = Point::new(3, -2);
    let b = Point::new(-7, 5);
    let c = Point::new(11, 13);
    let base = orient2d(&a, &b, &c);
    let k: i64 = 7;
    let scaled = orient2d(
        &Point::new(k * a.x, k * a.y),
        &Point::new(k * b.x, k * b.y),
        &Point::new(k * c.x, k * c.y),
    );
    assert_eq!(scaled, (k as i128) * (k as i128) * base);
    assert_eq!(scaled > 0, base > 0);
    assert_eq!(scaled < 0, base < 0);
}

#[test]
fn collinear_large_coordinates_give_exact_zero() {
    // Three points on the line y = 3x, far apart.
    let a = Point::new(1, 3);
    let b = Point::new(1_000_000_000_000, 3_000_000_000_000);
    let c = Point::new(123_456_789_123, 370_370_367_369);
    assert_eq!(orient2d(&a, &b, &c), 0);
    assert!(matches!(c.orient_to_points(&a, &b), Orientation::On));
}

#[test]
fn orient2d_at_the_coordinate_bound() {
    let m = MAX_ORIENT2D_COORD;
    let a = Point::new(-m, -m);
    let b = Point::new(m, -m);
    let c = Point::new(m, m);
    assert!(orient2d(&a, &b, &c) > 0);
    assert!(matches!(c.orient_to_points(&a, &b), Orientation::Inside));
    assert!(orient2d(&b, &a, &c) < 0);
}

#[test]
fn incircle_at_the_coordinate_bound() {
    let m = MAX_INCIRCLE_COORD;
    let a = Point::new(m, 0);
    let b = Point::new(0, m);
    let c = Point::new(-m, 0);
    // Cocircular at the bound.
    assert_eq!(incircle(&a, &b, &c, &Point::new(0, -m)), 0);
    // The center is strictly inside.
    assert!(incircle(&a, &b, &c, &Point::new(0, 0)) > 0);
}

#[test]
fn incircle_with_coincident_points_is_zero() {
    let a = Point::new(2, 3);
    let b = Point::new(5, -1);
    let c = Point::new(-4, 7);
    assert_eq!(incircle(&a, &a, &c, &Point::new(1, 1)), 0);
    assert_eq!(incircle(&a, &b, &c, &a), 0);
    assert_eq!(incircle(&a, &b, &b, &Point::new(0, 0)), 0);
}

#[test]
fn incircle_with_collinear_circle_points_is_deterministic() {
    // The three circle points are collinear; the determinant still has one
    // algebraically determined value.
    let a = Point::new(0, 0);
    let b = Point::new(1, 0);
    let c = Point::new(2, 0);
    assert_eq!(incircle(&a, &b, &c, &Point::new(1, 1)), 2);
}

#[test]
fn degenerate_triple_queried_against_itself_is_on() {
    let a = Point::new(0, 0);
    let c = Point::new(1, 0);
    assert!(matches!(a.orient_to_points(&a, &c), Orientation::On));
    assert_eq!(orient2d(&a, &a, &c), 0);
}

#[test]
fn float_estimate_and_exact_sign_agree_on_samples() {
    // A float evaluation of the determinant against the exact integer value,
    // over pseudo-random triples small enough that the float products are
    // themselves exact.
    let mut state: u64 = 0x9E37_79B9_7F4A_7C15;
    let mut coords: Vec<i64> = Vec::new();
    for _ in 0..600 {
        state = state
            .wrapping_mul(6364136223846793005)
            .wrapping_add(1442695040888963407);
        let v: i64 = ((state >> 33) % 2_000_001) as i64 - 1_000_000;
        coords.push(v);
    }
    for t in coords.chunks(6) {
        let a = Point::new(t[0], t[1]);
        let b = Point::new(t[2], t[3]);
        let c = Point::new(t[4], t[5]);
        let fast = (t[0] - t[4]) as f64 * (t[3] - t[5]) as f64
            - (t[1] - t[5]) as f64 * (t[2] - t[4]) as f64;
        let exact = orient2d(&a, &b, &c);
        assert_eq!(fast > 0.0, exact > 0);
        assert_eq!(fast < 0.0, exact < 0);
        assert_eq!(fast == 0.0, exact == 0);
        // Swapping the line points negates the determinant.
        assert_eq!(orient2d(&b, &a, &c), -exact);
    }
}

#[test]
fn line_segment_holds_its_endpoints() {
    let s = LineSegment {
        from: Point::new(0, 0),
        to: Point::new(1, 0),
    };
    assert_eq!(s.from, Point::new(0, 0));
    assert_eq!(s.to, Point::new(1, 0));
    let q = Point::new(1, 1);
    assert!(matches!(q.orient_to_points(&s.from, &s.to), Orientation::Inside));
}

#[test]
fn init_is_idempotent() {
    let _ = Library::init();
    let _ = Library::init();
}
