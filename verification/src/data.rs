//! The topology model: vertices, chord edges, edge chains and faces, built by
//! a `Model` that mints monotonically increasing identifiers.

use vstd::prelude::*;

use crate::err::Geom;
use crate::geom::{in_i128, BoundedLine, GLine, GVec, ParametrizedCurve, Point};
use vstd::string::StringExecFns;

verus! {

/// Identifier of a vertex, unique within the `Model` that minted it.
#[derive(Clone, Copy, Debug, PartialEq, Eq, Structural)]
pub struct VertexId(pub usize);

/// Identifier of an edge, unique within the `Model` that minted it.
#[derive(Clone, Copy, Debug, PartialEq, Eq, Structural)]
pub struct EdgeId(pub usize);

/// Identifier of a face, unique within the `Model` that minted it.
#[derive(Clone, Copy, Debug, PartialEq, Eq, Structural)]
pub struct FaceId(pub usize);

/// The diagnostic text of a vertex id: `vid: <n>`.
pub open spec fn vertex_id_text(id: VertexId) -> Seq<char> {
    "vid: "@ + crate::render::dec_nat(id.0 as int)
}

/// The diagnostic text of an edge id: `eid: <n>`.
pub open spec fn edge_id_text(id: EdgeId) -> Seq<char> {
    "eid: "@ + crate::render::dec_nat(id.0 as int)
}

impl VertexId {
    /// Diagnostic text `vid: <n>`.
    pub fn display_string(&self) -> (r: String)
        ensures
            r@ == vertex_id_text(*self),
    {
        let mut s = "vid: ".to_owned();
        s.append(crate::render::dec_usize(self.0).as_str());
        s
    }
}

impl EdgeId {
    /// Diagnostic text `eid: <n>`.
    pub fn display_string(&self) -> (r: String)
        ensures
            r@ == edge_id_text(*self),
    {
        let mut s = "eid: ".to_owned();
        s.append(crate::render::dec_usize(self.0).as_str());
        s
    }
}

/// The topological part of a vertex: its identity.
#[derive(Clone, Copy, Debug, PartialEq, Eq, Structural)]
struct TopoVertex {
    id: VertexId,
}

/// Which vertices bound an edge.  `Chord` — an edge bounded by exactly two
/// vertex ids — is the only variant so far; closed loops and rays are future
/// variants.
#[derive(Clone, Copy, Debug, PartialEq, Eq, Structural)]
enum EdgeVertices {
    Chord(VertexId, VertexId),
}

/// The topological part of an edge: its identity and its bounding vertices.
#[derive(Clone, Copy, Debug, PartialEq, Eq, Structural)]
struct TopoEdge {
    id: EdgeId,
    vertices: EdgeVertices,
}

/// The topological part of a face: its identity.
#[derive(Clone, Copy, Debug, PartialEq, Eq, Structural)]
struct TopoFace {
    id: FaceId,
}

/// A unique identity paired with a location.  Identity is the id, but equality
/// — as used by the three-distinct-vertices check of `start_edge_chain` — is
/// on the full value: two vertices with distinct ids at the same location
/// count as distinct.
#[derive(Clone, Copy, Debug, PartialEq, Eq, Structural)]
pub struct Vertex {
    topo_vertex: TopoVertex,
    pub point: Point,
}

impl Vertex {
    /// The location, as a specification value.
    pub closed spec fn spec_point(&self) -> Point {
        self.point
    }

    /// The identifier, as a specification value.
    pub closed spec fn vid(&self) -> VertexId {
        self.topo_vertex.id
    }

    /// The identifier this vertex was minted with.
    pub fn id(&self) -> (r: VertexId)
        ensures
            r == self.vid(),
    {
        self.topo_vertex.id
    }
}

/// The diagnostic text of a vertex: `Vertex{id: vid: <n>, point: (x, y, z)}`.
pub open spec fn vertex_text(id: VertexId, p: GVec) -> Seq<char> {
    "Vertex{id: "@ + vertex_id_text(id) + ", point: "@ + crate::geom::triple_text(p) + "}"@
}

impl Vertex {
    /// Diagnostic text `Vertex{id: vid: <n>, point: (x, y, z)}`.
    pub fn display_string(&self) -> (r: String)
        ensures
            r@ == vertex_text(self.vid(), self.spec_point()@),
    {
        let mut s = "Vertex{id: ".to_owned();
        s.append(self.topo_vertex.id.display_string().as_str());
        s.append(", point: ");
        s.append(self.point.display_string().as_str());
        s.append("}");
        s
    }
}

/// A unique identity paired with a curve and the ids of the vertices bounding
/// it.  The association with the two vertex ids is fixed at creation time.
#[derive(Debug)]
pub struct Edge<C: ParametrizedCurve> {
    topo_edge: TopoEdge,
    pub curve: C,
}

impl<C: ParametrizedCurve> Edge<C> {
    /// The curve, as a specification value.
    pub closed spec fn spec_curve(&self) -> C {
        self.curve
    }

    /// The identifier, as a specification value.
    pub closed spec fn eid(&self) -> EdgeId {
        self.topo_edge.id
    }

    /// The bounding vertex ids (initial, terminal), as a specification value.
    pub closed spec fn chord_ids(&self) -> (VertexId, VertexId) {
        match self.topo_edge.vertices {
            EdgeVertices::Chord(v0, v1) => (v0, v1),
        }
    }

    /// The identifier this edge was minted with.
    pub fn id(&self) -> (r: EdgeId)
        ensures
            r == self.eid(),
    {
        self.topo_edge.id
    }

    /// The ids of the vertices bounding this edge, initial first.
    pub fn vertex_ids(&self) -> (r: (VertexId, VertexId))
        ensures
            r == self.chord_ids(),
    {
        match self.topo_edge.vertices {
            EdgeVertices::Chord(v0, v1) => (v0, v1),
        }
    }
}

/// The diagnostic text of a chord edge's topology:
/// `ChordEdge(eid: <n>, vid0: vid: <a>, vid1: vid: <b>)`.
pub open spec fn chord_text(id: EdgeId, v0: VertexId, v1: VertexId) -> Seq<char> {
    "ChordEdge("@ + edge_id_text(id) + ", vid0: "@ + vertex_id_text(v0) + ", vid1: "@
        + vertex_id_text(v1) + ")"@
}

/// The diagnostic text of an edge: `Edge{eid: <n>, <curve>}`.
pub open spec fn edge_text(id: EdgeId, curve: GLine) -> Seq<char> {
    "Edge{"@ + edge_id_text(id) + ", "@ + crate::geom::line_text(curve) + "}"@
}

impl<C: ParametrizedCurve> Edge<C> {
    /// Diagnostic text of the edge's topology:
    /// `ChordEdge(eid: <n>, vid0: vid: <a>, vid1: vid: <b>)`.
    pub fn chord_display_string(&self) -> (r: String)
        ensures
            r@ == chord_text(self.eid(), self.chord_ids().0, self.chord_ids().1),
    {
        let (v0, v1) = self.vertex_ids();
        let mut s = "ChordEdge(".to_owned();
        s.append(self.topo_edge.id.display_string().as_str());
        s.append(", vid0: ");
        s.append(v0.display_string().as_str());
        s.append(", vid1: ");
        s.append(v1.display_string().as_str());
        s.append(")");
        s
    }
}

impl Edge<BoundedLine> {
    /// Diagnostic text `Edge{eid: <n>, BoundedLine{..}}`.
    pub fn display_string(&self) -> (r: String)
        requires
            in_i128(self.spec_curve()@.dir.vadd(self.spec_curve()@.origin).x),
            in_i128(self.spec_curve()@.dir.vadd(self.spec_curve()@.origin).y),
            in_i128(self.spec_curve()@.dir.vadd(self.spec_curve()@.origin).z),
        ensures
            r@ == edge_text(self.eid(), self.spec_curve()@),
    {
        let mut s = "Edge{".to_owned();
        s.append(self.topo_edge.id.display_string().as_str());
        s.append(", ");
        s.append(self.curve.display_string().as_str());
        s.append("}");
        s
    }
}

/// An ordered, non-empty sequence of edges intended to form a connected
/// boundary loop.  Connectivity is not enforced while the chain grows; closing
/// it into a face checks that the loop comes back to its start.
#[derive(Debug)]
pub struct EdgeChain<C: ParametrizedCurve> {
    edges: Vec<Edge<C>>,
}

impl<C: ParametrizedCurve> EdgeChain<C> {
    /// The edges of the chain, in order, as a specification value.
    pub closed spec fn edges_seq(&self) -> Seq<Edge<C>> {
        self.edges@
    }

    /// Well-formed: non-empty, as every construction path guarantees.
    pub open spec fn wf(&self) -> bool {
        self.edges_seq().len() >= 1
    }

    /// How many edges the chain holds.
    pub fn edge_count(&self) -> (r: usize)
        ensures
            r == self.edges_seq().len(),
    {
        self.edges.len()
    }

    /// The edge at position `i`.
    pub fn edge_at(&self, i: usize) -> (r: &Edge<C>)
        requires
            i < self.edges_seq().len(),
        ensures
            *r == self.edges_seq()[i as int],
    {
        &self.edges[i]
    }

    /// Append an edge to the chain.  No transition removes edges once added.
    pub fn append_edge(&mut self, edge: Edge<C>)
        ensures
            final(self).edges_seq() == old(self).edges_seq().push(edge),
    {
        self.edges.push(edge);
    }
}

/// The last edge of the chain terminates at the first edge's start vertex:
/// the condition under which the chain closes into a face.
pub open spec fn chain_closed<C: ParametrizedCurve>(chain: &EdgeChain<C>) -> bool {
    chain.edges_seq().last().chord_ids().1 == chain.edges_seq().first().chord_ids().0
}

/// The edge ids of a chain, in order.
pub open spec fn chain_edge_ids<C: ParametrizedCurve>(chain: &EdgeChain<C>) -> Seq<EdgeId> {
    chain.edges_seq().map_values(|e: Edge<C>| e.eid())
}

/// A bounded region whose boundary is a closed edge chain.  The face retains
/// the edge ids of its bounding chain so downstream consumers can recover the
/// boundary.
#[derive(Debug)]
pub struct Face {
    topo_face: TopoFace,
    boundary: Vec<EdgeId>,
}

impl Face {
    /// The identifier, as a specification value.
    pub closed spec fn fid(&self) -> FaceId {
        self.topo_face.id
    }

    /// The boundary description, as a specification value.
    pub closed spec fn boundary_ids(&self) -> Seq<EdgeId> {
        self.boundary@
    }

    /// The identifier this face was minted with.
    pub fn id(&self) -> (r: FaceId)
        ensures
            r == self.fid(),
    {
        self.topo_face.id
    }

    /// The edge ids of the chain this face was closed from, in order.
    pub fn boundary(&self) -> (r: &Vec<EdgeId>)
        ensures
            r@ == self.boundary_ids(),
    {
        &self.boundary
    }
}

/// The exclusive factory for vertex, edge and face identifiers: three
/// independent monotonic counters, zeroed at creation.  Entities it mints are
/// owned by the callers; the model retains only the counters.
pub struct Model {
    next_vertex_id: usize,
    next_edge_id: usize,
    next_face_id: usize,
}

impl Model {
    /// The vertex id that the next `make_vertex` call will issue.
    pub closed spec fn next_vertex(&self) -> int {
        self.next_vertex_id as int
    }

    /// The edge id that the next chord-edge creation will issue.
    pub closed spec fn next_edge(&self) -> int {
        self.next_edge_id as int
    }

    /// The face id that the next chain closure will issue.
    pub closed spec fn next_face(&self) -> int {
        self.next_face_id as int
    }
}

/// Effect of minting a vertex: it received the pre-state counter, which
/// advanced by one; the other counters are untouched.
pub open spec fn vertex_issued(pre: Model, post: Model, v: Vertex) -> bool {
    &&& v.vid().0 == pre.next_vertex()
    &&& post.next_vertex() == pre.next_vertex() + 1
    &&& post.next_edge() == pre.next_edge()
    &&& post.next_face() == pre.next_face()
}

/// Effect of minting an edge, on the counters and on the edge's id.
pub open spec fn edge_issued<C: ParametrizedCurve>(pre: Model, post: Model, e: Edge<C>) -> bool {
    &&& e.eid().0 == pre.next_edge()
    &&& post.next_edge() == pre.next_edge() + 1
    &&& post.next_vertex() == pre.next_vertex()
    &&& post.next_face() == pre.next_face()
}

/// Effect of minting a face, on the counters and on the face's id.
pub open spec fn face_issued(pre: Model, post: Model, f: Face) -> bool {
    &&& f.fid().0 == pre.next_face()
    &&& post.next_face() == pre.next_face() + 1
    &&& post.next_vertex() == pre.next_vertex()
    &&& post.next_edge() == pre.next_edge()
}

/// No operation ever decreases a counter; ids are never reused.
pub open spec fn model_evolves(pre: Model, post: Model) -> bool {
    &&& pre.next_vertex() <= post.next_vertex()
    &&& pre.next_edge() <= post.next_edge()
    &&& pre.next_face() <= post.next_face()
}

impl Model {
    /// A fresh model: all three counters at zero.
    pub fn new() -> (m: Model)
        ensures
            m.next_vertex() == 0,
            m.next_edge() == 0,
            m.next_face() == 0,
    {
        Model { next_vertex_id: 0, next_edge_id: 0, next_face_id: 0 }
    }

    /// The counters as they stand: the next vertex, edge and face id, in that
    /// order.
    pub fn counters(&self) -> (r: (usize, usize, usize))
        ensures
            r.0 == self.next_vertex(),
            r.1 == self.next_edge(),
            r.2 == self.next_face(),
    {
        (self.next_vertex_id, self.next_edge_id, self.next_face_id)
    }

    /// Mint a vertex at the given location.  Always succeeds; duplicate
    /// locations are permitted and yield structurally distinct vertices.
    pub fn make_vertex(&mut self, point: Point) -> (v: Vertex)
        requires
            old(self).next_vertex() < usize::MAX,
        ensures
            vertex_issued(*old(self), *final(self), v),
            model_evolves(*old(self), *final(self)),
            v.spec_point() == point,
    {
        let id = self.next_vertex_id;
        self.next_vertex_id = self.next_vertex_id + 1;
        let topo_vertex = TopoVertex { id: VertexId(id) };
        Vertex { topo_vertex, point }
    }

    /// Mint the chord edge between two vertices.  Always succeeds; duplicate
    /// or coincident vertices are permitted and produce a degenerate
    /// zero-length curve.
    pub fn make_chord_edge(&mut self, v0: &Vertex, v1: &Vertex) -> (e: Edge<BoundedLine>)
        requires
            old(self).next_edge() < usize::MAX,
            in_i128(v1.spec_point()@.vsub(v0.spec_point()@).x),
            in_i128(v1.spec_point()@.vsub(v0.spec_point()@).y),
            in_i128(v1.spec_point()@.vsub(v0.spec_point()@).z),
        ensures
            edge_issued(*old(self), *final(self), e),
            model_evolves(*old(self), *final(self)),
            e.chord_ids() == (v0.vid(), v1.vid()),
            e.spec_curve()@ == GLine::from_endpoints(v0.spec_point()@, v1.spec_point()@),
    {
        let id = self.next_edge_id;
        self.next_edge_id = self.next_edge_id + 1;
        let vertices = EdgeVertices::Chord(v0.topo_vertex.id, v1.topo_vertex.id);
        let topo_edge = TopoEdge { id: EdgeId(id), vertices };
        let curve = BoundedLine::new(v0.point, v1.point);
        Edge { topo_edge, curve }
    }

    /// Start an edge chain from three vertices, creating the two chord edges
    /// `v0 -> v1` and `v1 -> v2`.  Fails with `CannotCreatePlane`, leaving the
    /// model untouched, exactly when two of the three vertices are equal (full
    /// value, not merely id): three mutually distinct vertices are required to
    /// establish a non-degenerate initial plane.
    pub fn start_edge_chain(&mut self, v0: &Vertex, v1: &Vertex, v2: &Vertex) -> (r: Result<
        EdgeChain<BoundedLine>,
        Geom,
    >)
        requires
            old(self).next_edge() + 2 <= usize::MAX,
            in_i128(v1.spec_point()@.vsub(v0.spec_point()@).x),
            in_i128(v1.spec_point()@.vsub(v0.spec_point()@).y),
            in_i128(v1.spec_point()@.vsub(v0.spec_point()@).z),
            in_i128(v2.spec_point()@.vsub(v1.spec_point()@).x),
            in_i128(v2.spec_point()@.vsub(v1.spec_point()@).y),
            in_i128(v2.spec_point()@.vsub(v1.spec_point()@).z),
        ensures
            r is Err <==> (*v0 == *v1 || *v0 == *v2 || *v1 == *v2),
            model_evolves(*old(self), *final(self)),
            r matches Err(e) ==> e == Geom::CannotCreatePlane && *final(self) == *old(self),
            r matches Ok(chain) ==> {
                &&& chain.wf()
                &&& chain.edges_seq().len() == 2
                &&& chain.edges_seq()[0].eid().0 == old(self).next_edge()
                &&& chain.edges_seq()[1].eid().0 == old(self).next_edge() + 1
                &&& chain.edges_seq()[0].chord_ids() == (v0.vid(), v1.vid())
                &&& chain.edges_seq()[1].chord_ids() == (v1.vid(), v2.vid())
                &&& chain.edges_seq()[0].spec_curve()@ == GLine::from_endpoints(v0.spec_point()@, v1.spec_point()@)
                &&& chain.edges_seq()[1].spec_curve()@ == GLine::from_endpoints(v1.spec_point()@, v2.spec_point()@)
                &&& final(self).next_edge() == old(self).next_edge() + 2
                &&& final(self).next_vertex() == old(self).next_vertex()
                &&& final(self).next_face() == old(self).next_face()
            },
    {
        if v0 == v1 || v0 == v2 || v1 == v2 {
            return Err(Geom::CannotCreatePlane);
        }
        let e0 = self.make_chord_edge(v0, v1);
        let e1 = self.make_chord_edge(v1, v2);
        Ok(EdgeChain { edges: vec![e0, e1] })
    }

    /// Close a chain into a face.  Succeeds, minting a fresh face id and
    /// recording the chain's edge ids as the face's boundary, exactly when the
    /// chain's last edge terminates at the first edge's start vertex; fails
    /// with `ChainNotClosed`, leaving the model untouched, otherwise.
    pub fn close_edge_chain<C: ParametrizedCurve>(&mut self, chain: &EdgeChain<C>) -> (r: Result<
        Face,
        Geom,
    >)
        requires
            chain.wf(),
            old(self).next_face() < usize::MAX,
        ensures
            r is Ok <==> chain_closed(chain),
            model_evolves(*old(self), *final(self)),
            r matches Err(e) ==> e == Geom::ChainNotClosed && *final(self) == *old(self),
            r matches Ok(face) ==> face_issued(*old(self), *final(self), face)
                && face.boundary_ids() == chain_edge_ids(chain),
    {
        let n = chain.edge_count();
        let (first_start, _) = chain.edge_at(0).vertex_ids();
        let (_, last_end) = chain.edge_at(n - 1).vertex_ids();
        if last_end != first_start {
            return Err(Geom::ChainNotClosed);
        }
        let id = self.next_face_id;
        self.next_face_id = self.next_face_id + 1;
        let mut boundary: Vec<EdgeId> = Vec::new();
        let mut i: usize = 0;
        while i < n
            invariant
                i <= n,
                n == chain.edges_seq().len(),
                boundary@ == chain.edges_seq().subrange(0, i as int).map_values(
                    |e: Edge<C>| e.eid(),
                ),
            decreases n - i,
        {
            let eid = chain.edge_at(i).id();
            boundary.push(eid);
            proof {
                assert(chain.edges_seq().subrange(0, i + 1 as int) =~= chain.edges_seq().subrange(
                    0,
                    i as int,
                ).push(chain.edges_seq()[i as int]));
                assert(boundary@ =~= chain.edges_seq().subrange(0, i + 1 as int).map_values(
                    |e: Edge<C>| e.eid(),
                ));
            }
            i = i + 1;
        }
        proof {
            assert(chain.edges_seq().subrange(0, n as int) =~= chain.edges_seq());
        }
        Ok(Face { topo_face: TopoFace { id: FaceId(id) }, boundary })
    }
}

/// Law (id monotonicity): a vertex issued earlier has a strictly smaller id
/// than one issued later, across any run of model operations in between.
pub proof fn lemma_vertex_ids_strictly_increase(
    pre_a: Model,
    post_a: Model,
    va: Vertex,
    pre_b: Model,
    post_b: Model,
    vb: Vertex,
)
    requires
        vertex_issued(pre_a, post_a, va),
        model_evolves(post_a, pre_b),
        vertex_issued(pre_b, post_b, vb),
    ensures
        va.vid().0 < vb.vid().0,
{
}

/// Law (id monotonicity): an edge issued earlier has a strictly smaller id
/// than one issued later, across any run of model operations in between.
pub proof fn lemma_edge_ids_strictly_increase<C: ParametrizedCurve, D: ParametrizedCurve>(
    pre_a: Model,
    post_a: Model,
    ea: Edge<C>,
    pre_b: Model,
    post_b: Model,
    eb: Edge<D>,
)
    requires
        edge_issued(pre_a, post_a, ea),
        model_evolves(post_a, pre_b),
        edge_issued(pre_b, post_b, eb),
    ensures
        ea.eid().0 < eb.eid().0,
{
}

/// Law (id monotonicity): a face issued earlier has a strictly smaller id than
/// one issued later, across any run of model operations in between.
pub proof fn lemma_face_ids_strictly_increase(
    pre_a: Model,
    post_a: Model,
    fa: Face,
    pre_b: Model,
    post_b: Model,
    fb: Face,
)
    requires
        face_issued(pre_a, post_a, fa),
        model_evolves(post_a, pre_b),
        face_issued(pre_b, post_b, fb),
    ensures
        fa.fid().0 < fb.fid().0,
{
}

/// Counters never move backwards across consecutive spans of operations.
pub proof fn lemma_model_evolves_trans(a: Model, b: Model, c: Model)
    requires
        model_evolves(a, b),
        model_evolves(b, c),
    ensures
        model_evolves(a, c),
{
}

/// Counters never move backwards over any sequence of operations: whenever
/// consecutive entries of a trace of model states are related by an
/// operation's before/after pair, so is every earlier state to every later
/// one.  Together with the issuance predicates this is what makes issued ids
/// strictly increasing and never reused.
pub proof fn lemma_trace_evolves(trace: Seq<Model>, i: int, j: int)
    requires
        forall|k: int| 0 <= k < trace.len() - 1 ==> model_evolves(#[trigger] trace[k], trace[k + 1]),
        0 <= i <= j < trace.len(),
    ensures
        model_evolves(trace[i], trace[j]),
    decreases j - i,
{
    if i < j {
        lemma_trace_evolves(trace, i, j - 1);
        assert(model_evolves(trace[j - 1], trace[j]));
    }
}

/// Law (face closure determinism): closing the same chain twice yields two
/// faces with distinct, increasing ids and structurally identical boundary
/// descriptions.
pub proof fn lemma_face_closure_deterministic<C: ParametrizedCurve>(
    chain: &EdgeChain<C>,
    pre_a: Model,
    post_a: Model,
    fa: Face,
    pre_b: Model,
    post_b: Model,
    fb: Face,
)
    requires
        face_issued(pre_a, post_a, fa),
        fa.boundary_ids() == chain_edge_ids(chain),
        model_evolves(post_a, pre_b),
        face_issued(pre_b, post_b, fb),
        fb.boundary_ids() == chain_edge_ids(chain),
    ensures
        fa.fid().0 < fb.fid().0,
        fa.boundary_ids() == fb.boundary_ids(),
{
}

} // verus!
