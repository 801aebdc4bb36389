use rcad_lib::data::{EdgeId, Model, VertexId};
use rcad_lib::err::Geom;
use rcad_lib::geom::{ParametrizedCurve, Point};

#[test]
fn vertex_ids_increase() {
    let mut model = Model::new();
    let v0 = model.make_vertex(Point { x: 0, y: 0, z: 0 });
    let v1 = model.make_vertex(Point { x: 1, y: 0, z: 0 });
    let v2 = model.make_vertex(Point { x: 2, y: 0, z: 0 });
    assert_eq!(v0.id().0, 0);
    assert_eq!(v1.id().0, 1);
    assert_eq!(v2.id().0, 2);
    assert!(v0.id().0 < v1.id().0 && v1.id().0 < v2.id().0);
}

#[test]
fn edge_ids_increase_independently() {
    let mut model = Model::new();
    let v0 = model.make_vertex(Point { x: 0, y: 0, z: 0 });
    let v1 = model.make_vertex(Point { x: 5, y: 0, z: 0 });
    let e0 = model.make_chord_edge(&v0, &v1);
    let e1 = model.make_chord_edge(&v1, &v0);
    assert_eq!(e0.id().0, 0);
    assert_eq!(e1.id().0, 1);
    // Edge ids do not consume vertex ids and the other way round.
    let v2 = model.make_vertex(Point { x: 0, y: 5, z: 0 });
    assert_eq!(v2.id().0, 2);
    assert_eq!(model.counters(), (3, 2, 0));
}

#[test]
fn chord_edge_records_its_vertices() {
    let mut model = Model::new();
    let v0 = model.make_vertex(Point { x: 0, y: 0, z: 0 });
    let v1 = model.make_vertex(Point { x: 5, y: 0, z: 0 });
    let e = model.make_chord_edge(&v0, &v1);
    assert_eq!(e.vertex_ids(), (VertexId(0), VertexId(1)));
    assert_eq!(e.curve.at(0), Point { x: 0, y: 0, z: 0 });
    assert_eq!(e.curve.at(1), Point { x: 5, y: 0, z: 0 });
}

#[test]
fn chord_edge_permits_degenerate_curve() {
    let mut model = Model::new();
    let v = model.make_vertex(Point { x: 3, y: 4, z: 5 });
    let e = model.make_chord_edge(&v, &v);
    assert_eq!(e.vertex_ids(), (VertexId(0), VertexId(0)));
    // The zero-length curve evaluates to the same point everywhere.
    assert_eq!(e.curve.at(0), e.curve.at(1));
}

#[test]
fn chain_start_rejects_duplicate_vertices() {
    let mut model = Model::new();
    let v = model.make_vertex(Point { x: 0, y: 0, z: 0 });
    let w = model.make_vertex(Point { x: 5, y: 0, z: 0 });
    assert_eq!(model.start_edge_chain(&v, &v, &w).unwrap_err(), Geom::CannotCreatePlane);
    assert_eq!(model.start_edge_chain(&v, &w, &v).unwrap_err(), Geom::CannotCreatePlane);
    assert_eq!(model.start_edge_chain(&v, &w, &w).unwrap_err(), Geom::CannotCreatePlane);
    // A failed start mints no edge ids.
    assert_eq!(model.counters(), (2, 0, 0));
}

#[test]
fn chain_start_succeeds_with_three_distinct_vertices() {
    let mut model = Model::new();
    let v0 = model.make_vertex(Point { x: 5, y: 0, z: 0 });
    let v1 = model.make_vertex(Point { x: 10, y: 0, z: 0 });
    let v2 = model.make_vertex(Point { x: 10, y: 5, z: 0 });
    let chain = model.start_edge_chain(&v0, &v1, &v2).unwrap();
    assert_eq!(chain.edge_count(), 2);
    assert_eq!(chain.edge_at(0).vertex_ids(), (VertexId(0), VertexId(1)));
    assert_eq!(chain.edge_at(1).vertex_ids(), (VertexId(1), VertexId(2)));
    assert_eq!(chain.edge_at(0).id().0, 0);
    assert_eq!(chain.edge_at(1).id().0, 1);
}

#[test]
fn coincident_points_still_count_as_distinct_vertices() {
    // Policy under test: distinctness for the plane check compares full vertex
    // values, so two vertices minted at the same location remain distinct.
    let mut model = Model::new();
    let v0 = model.make_vertex(Point { x: 5, y: 0, z: 0 });
    let v1 = model.make_vertex(Point { x: 5, y: 0, z: 0 });
    let v2 = model.make_vertex(Point { x: 10, y: 0, z: 0 });
    assert!(model.start_edge_chain(&v0, &v1, &v2).is_ok());
}

#[test]
fn closing_an_open_chain_fails() {
    let mut model = Model::new();
    let v0 = model.make_vertex(Point { x: 5, y: 0, z: 0 });
    let v1 = model.make_vertex(Point { x: 10, y: 0, z: 0 });
    let v2 = model.make_vertex(Point { x: 10, y: 5, z: 0 });
    let chain = model.start_edge_chain(&v0, &v1, &v2).unwrap();
    // The chain ends at v2, not back at v0.
    assert_eq!(model.close_edge_chain(&chain).unwrap_err(), Geom::ChainNotClosed);
    // A failed closure mints no face id.
    assert_eq!(model.counters(), (3, 2, 0));
}

#[test]
fn closing_a_closed_chain_yields_a_face_with_its_boundary() {
    let mut model = Model::new();
    let v0 = model.make_vertex(Point { x: 5, y: 0, z: 0 });
    let v1 = model.make_vertex(Point { x: 10, y: 0, z: 0 });
    let v2 = model.make_vertex(Point { x: 10, y: 5, z: 0 });
    let mut chain = model.start_edge_chain(&v0, &v1, &v2).unwrap();
    chain.append_edge(model.make_chord_edge(&v2, &v0));
    let face = model.close_edge_chain(&chain).unwrap();
    assert_eq!(face.id().0, 0);
    assert_eq!(face.boundary(), &vec![EdgeId(0), EdgeId(1), EdgeId(2)]);
}

#[test]
fn closing_the_same_chain_twice_is_deterministic() {
    let mut model = Model::new();
    let v0 = model.make_vertex(Point { x: 5, y: 0, z: 0 });
    let v1 = model.make_vertex(Point { x: 10, y: 0, z: 0 });
    let v2 = model.make_vertex(Point { x: 10, y: 5, z: 0 });
    let mut chain = model.start_edge_chain(&v0, &v1, &v2).unwrap();
    chain.append_edge(model.make_chord_edge(&v2, &v0));
    let f1 = model.close_edge_chain(&chain).unwrap();
    let f2 = model.close_edge_chain(&chain).unwrap();
    // Different, increasing ids; structurally identical boundary description.
    assert!(f1.id().0 < f2.id().0);
    assert_eq!(f1.id().0, 0);
    assert_eq!(f2.id().0, 1);
    assert_eq!(f1.boundary(), f2.boundary());
}

#[test]
fn error_messages() {
    assert_eq!(
        Geom::CannotCreatePlane.message(),
        "must provide three distinct vertices to establish a plane"
    );
    assert_eq!(
        Geom::ChainNotClosed.message(),
        "the last edge of the chain must terminate at the start vertex of its first edge"
    );
}
