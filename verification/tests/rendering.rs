use rcad_lib::data::Model;
use rcad_lib::geom::{BoundedLine, Point, Vector};
use rcad_lib::render::{dec_i128, dec_u128, dec_usize};

#[test]
fn decimal_rendering() {
    assert_eq!(dec_u128(0), "0");
    assert_eq!(dec_u128(7), "7");
    assert_eq!(dec_u128(1234567890), "1234567890");
    assert_eq!(dec_u128(u128::MAX), "340282366920938463463374607431768211455");
    assert_eq!(dec_i128(0), "0");
    assert_eq!(dec_i128(-1), "-1");
    assert_eq!(dec_i128(4096), "4096");
    assert_eq!(dec_i128(i128::MIN), "-170141183460469231731687303715884105728");
    assert_eq!(dec_usize(42), "42");
}

#[test]
fn point_and_vector_text() {
    assert_eq!(Point { x: 5, y: 0, z: -3 }.display_string(), "(5, 0, -3)");
    assert_eq!(Vector { x: -1, y: 2, z: 3 }.display_string(), "(-1, 2, 3)");
}

#[test]
fn line_text() {
    let line = BoundedLine::new(Point { x: 5, y: 0, z: 0 }, Point { x: 10, y: 5, z: 0 });
    assert_eq!(line.display_string(), "BoundedLine{p0: (5, 0, 0), p1: (10, 5, 0)}");
}

#[test]
fn entity_text() {
    let mut model = Model::new();
    let v0 = model.make_vertex(Point { x: 5, y: 0, z: 0 });
    let v1 = model.make_vertex(Point { x: 10, y: 0, z: 0 });
    assert_eq!(v0.display_string(), "Vertex{id: vid: 0, point: (5, 0, 0)}");
    assert_eq!(v0.id().display_string(), "vid: 0");
    let e = model.make_chord_edge(&v0, &v1);
    assert_eq!(e.id().display_string(), "eid: 0");
    assert_eq!(
        e.display_string(),
        "Edge{eid: 0, BoundedLine{p0: (5, 0, 0), p1: (10, 0, 0)}}"
    );
    assert_eq!(
        e.chord_display_string(),
        "ChordEdge(eid: 0, vid0: vid: 0, vid1: vid: 1)"
    );
}
