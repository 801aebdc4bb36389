use rcad_lib::geom::{BoundedLine, ParametrizedCurve, Point, Scalar, Vector};

#[test]
fn vector_algebra_exact_values() {
    let a = Vector { x: 1, y: 2, z: 3 };
    let b = Vector { x: 4, y: 5, z: 6 };
    assert_eq!(a.dot(b), 32);
    let m = Vector { x: 3, y: 4, z: 12 };
    assert_eq!(m.mag_squared(), 169);
    let s = a.add(b);
    assert_eq!((s.x, s.y, s.z), (5, 7, 9));
    let d = b.sub(a);
    assert_eq!((d.x, d.y, d.z), (3, 3, 3));
    let t = a.mul(-2);
    assert_eq!((t.x, t.y, t.z), (-2, -4, -6));
    let u = Scalar(10).mul(a);
    assert_eq!((u.x, u.y, u.z), (10, 20, 30));
}

#[test]
fn point_vector_conversions_relabel() {
    let p = Point { x: 7, y: -8, z: 9 };
    let v = Vector::from(p);
    assert_eq!((v.x, v.y, v.z), (7, -8, 9));
    let q = Point::from(v);
    assert_eq!(q, p);
    let diff = Point { x: 10, y: 0, z: 0 }.sub(Point { x: 4, y: 1, z: -2 });
    assert_eq!(diff, Point { x: 6, y: -1, z: 2 });
}

#[test]
fn line_evaluates_to_its_endpoints() {
    let p0 = Point { x: 5, y: 10, z: 30 };
    let p1 = Point { x: 15, y: 10, z: 30 };
    let line = BoundedLine::new(p0, p1);
    assert_eq!(line.at(0), p0);
    assert_eq!(line.at(1), p1);
}

#[test]
fn crossing_segments() {
    // The known-sensitive closest-approach formulation, over integer scalars:
    // the truncated projection parameters land on the two starting points,
    // which sit 10 apart, so exact equality misses and a tolerance of 10
    // finds the candidate point.
    let l0 = BoundedLine::new(Point { x: 5, y: 10, z: 30 }, Point { x: 15, y: 10, z: 30 });
    let l1 = BoundedLine::new(Point { x: 5, y: 10, z: 20 }, Point { x: 10, y: 10, z: 40 });
    assert_eq!(l0.intersection(&l1, None), None);
    assert_eq!(l0.intersection(&l1, Some(10)), Some(Point { x: 5, y: 10, z: 30 }));
}

#[test]
fn parallel_lines_never_intersect() {
    // The second direction is twice the first: parallel, not coincident.
    let l0 = BoundedLine::new(Point { x: 0, y: 0, z: 0 }, Point { x: 1, y: 0, z: 0 });
    let l1 = BoundedLine::new(Point { x: 0, y: 1, z: 0 }, Point { x: 2, y: 1, z: 0 });
    assert_eq!(l0.intersection(&l1, None), None);
    assert_eq!(l0.intersection(&l1, Some(1)), None);
    assert_eq!(l0.intersection(&l1, Some(4096)), None);
    // Coincident parallels are rejected the same way.
    let l2 = BoundedLine::new(Point { x: 0, y: 0, z: 0 }, Point { x: 2, y: 0, z: 0 });
    assert_eq!(l0.intersection(&l2, Some(4096)), None);
    // A degenerate (zero-length) first line is rejected before any division.
    let l3 = BoundedLine::new(Point { x: 0, y: 0, z: 0 }, Point { x: 0, y: 0, z: 0 });
    assert_eq!(l3.intersection(&l0, Some(4096)), None);
}

#[test]
fn parallel_non_multiple_directions() {
    // Directions (2, 0, 0) and (1, 0, 0): parallel, though the second is not
    // an integer multiple of the first.  The cross-product guard catches the
    // pair all the same, for every tolerance.
    let l0 = BoundedLine::new(Point { x: 0, y: 0, z: 0 }, Point { x: 2, y: 0, z: 0 });
    let l1 = BoundedLine::new(Point { x: 0, y: 1, z: 0 }, Point { x: 1, y: 1, z: 0 });
    assert_eq!(l0.intersection(&l1, None), None);
    assert_eq!(l0.intersection(&l1, Some(1)), None);
    assert_eq!(l0.intersection(&l1, Some(4096)), None);
    // The same with directions (2, 0, 0) and (3, 0, 0).
    let l2 = BoundedLine::new(Point { x: 0, y: 1, z: 0 }, Point { x: 3, y: 1, z: 0 });
    assert_eq!(l0.intersection(&l2, Some(4096)), None);
}

#[test]
fn tolerance_widening_is_monotone() {
    // The candidate points of this pair sit exactly 10 apart: every tolerance
    // at or above 10 finds the same point, every smaller one finds nothing.
    let l0 = BoundedLine::new(Point { x: 5, y: 10, z: 30 }, Point { x: 15, y: 10, z: 30 });
    let l1 = BoundedLine::new(Point { x: 5, y: 10, z: 20 }, Point { x: 10, y: 10, z: 40 });
    let hit = Some(Point { x: 5, y: 10, z: 30 });
    assert_eq!(l0.intersection(&l1, Some(10)), hit);
    assert_eq!(l0.intersection(&l1, Some(11)), hit);
    assert_eq!(l0.intersection(&l1, Some(4096)), hit);
    assert_eq!(l0.intersection(&l1, Some(9)), None);
    assert_eq!(l0.intersection(&l1, Some(0)), None);
}

#[test]
fn intersection_rejects_points_beyond_the_segment() {
    // The infinite lines cross at (20, 0, 0), beyond the first segment's span.
    let l0 = BoundedLine::new(Point { x: 0, y: 0, z: 0 }, Point { x: 10, y: 0, z: 0 });
    let l1 = BoundedLine::new(Point { x: 20, y: -5, z: 0 }, Point { x: 20, y: 5, z: 0 });
    // Exact equality misses (the truncated parameters land 5 apart) ...
    assert_eq!(l0.intersection(&l1, Some(0)), None);
    // ... and with the tolerance widened the candidate at (20, 0, 0) is still
    // rejected, because it lies outside the first segment.
    assert_eq!(l0.intersection(&l1, Some(5)), None);
}

#[test]
fn candidates_are_checked_against_their_own_segments() {
    // The truncated parameters land on (0, 0, 0) and (3, 0, 0), which are
    // within tolerance 3 of each other — but (3, 0, 0) lies far outside the
    // second segment, whose squared length is 1, so the pair is rejected.
    let l0 = BoundedLine::new(Point { x: 0, y: 0, z: 0 }, Point { x: 10, y: 0, z: 0 });
    let l1 = BoundedLine::new(Point { x: 3, y: 5, z: 0 }, Point { x: 3, y: 6, z: 0 });
    assert_eq!(l0.intersection(&l1, Some(3)), None);
}

#[test]
fn intersection_finds_a_shared_point() {
    // Both segments start at the origin; the closest approach is exact.
    let l0 = BoundedLine::new(Point { x: 0, y: 0, z: 0 }, Point { x: 10, y: 0, z: 0 });
    let l1 = BoundedLine::new(Point { x: 0, y: 0, z: 0 }, Point { x: 0, y: 10, z: 0 });
    assert_eq!(l0.intersection(&l1, Some(0)), Some(Point { x: 0, y: 0, z: 0 }));
}
