//! Generic vector/point algebra and the parametrized-curve abstraction,
//! including the bounded-line closest-approach intersection test.

use vstd::prelude::*;
use vstd::string::StringExecFns;

verus! {

/// Largest coordinate magnitude admitted by the bounded-line intersection
/// test.  The closest-approach computation multiplies coordinates roughly ten
/// times over; this bound keeps every intermediate value inside `i128`.
pub const COORD_LIMIT: i128 = 4096;

/// The value fits in an `i128`.
pub open spec fn in_i128(x: int) -> bool {
    i128::MIN <= x <= i128::MAX
}

/// The value is an admissible coordinate for the intersection test.
pub open spec fn in_coord_range(x: int) -> bool {
    -(COORD_LIMIT as int) <= x <= COORD_LIMIT as int
}

/// Mathematical model of a 3-component point or vector: unbounded integer
/// coordinates.  `Point` and `Vector` both view to this type, because the
/// conversion between them is a pure relabeling.
pub struct GVec {
    pub x: int,
    pub y: int,
    pub z: int,
}

impl GVec {
    pub open spec fn vadd(self, other: GVec) -> GVec {
        GVec { x: self.x + other.x, y: self.y + other.y, z: self.z + other.z }
    }

    pub open spec fn vsub(self, other: GVec) -> GVec {
        GVec { x: self.x - other.x, y: self.y - other.y, z: self.z - other.z }
    }

    pub open spec fn vscale(self, s: int) -> GVec {
        GVec { x: s * self.x, y: s * self.y, z: s * self.z }
    }

    pub open spec fn vdot(self, other: GVec) -> int {
        self.x * other.x + self.y * other.y + self.z * other.z
    }

    pub open spec fn vmagsq(self) -> int {
        self.vdot(self)
    }

    pub open spec fn vcross(self, other: GVec) -> GVec {
        GVec {
            x: self.y * other.z - self.z * other.y,
            y: self.z * other.x - self.x * other.z,
            z: self.x * other.y - self.y * other.x,
        }
    }

    /// Every coordinate within `k` in magnitude.
    pub open spec fn within(self, k: int) -> bool {
        &&& -k <= self.x <= k
        &&& -k <= self.y <= k
        &&& -k <= self.z <= k
    }

    /// Every coordinate is an admissible input coordinate.
    pub open spec fn in_range(self) -> bool {
        &&& in_coord_range(self.x)
        &&& in_coord_range(self.y)
        &&& in_coord_range(self.z)
    }
}

/// Scalar wrapper used to multiply a vector by a scalar from the left.
#[derive(Clone, Copy, Debug)]
pub struct Scalar(pub i128);

/// An immutable location in space.
#[derive(Clone, Copy, Debug, PartialEq, Eq, Structural)]
pub struct Point {
    pub x: i128,
    pub y: i128,
    pub z: i128,
}

/// A displacement in space.
#[derive(Clone, Copy, Debug)]
pub struct Vector {
    pub x: i128,
    pub y: i128,
    pub z: i128,
}

impl View for Point {
    type V = GVec;

    open spec fn view(&self) -> GVec {
        GVec { x: self.x as int, y: self.y as int, z: self.z as int }
    }
}

impl View for Vector {
    type V = GVec;

    open spec fn view(&self) -> GVec {
        GVec { x: self.x as int, y: self.y as int, z: self.z as int }
    }
}

impl From<Point> for Vector {
    /// Relabel a location as a displacement; no computation.
    fn from(point: Point) -> (r: Vector) {
        Vector { x: point.x, y: point.y, z: point.z }
    }
}

impl vstd::std_specs::convert::FromSpecImpl<Point> for Vector {
    open spec fn obeys_from_spec() -> bool {
        true
    }

    open spec fn from_spec(point: Point) -> Vector {
        Vector { x: point.x, y: point.y, z: point.z }
    }
}

impl From<Vector> for Point {
    /// Relabel a displacement as a location; no computation.
    fn from(vector: Vector) -> (r: Point) {
        Point { x: vector.x, y: vector.y, z: vector.z }
    }
}

impl vstd::std_specs::convert::FromSpecImpl<Vector> for Point {
    open spec fn obeys_from_spec() -> bool {
        true
    }

    open spec fn from_spec(vector: Vector) -> Point {
        Point { x: vector.x, y: vector.y, z: vector.z }
    }
}

impl Point {
    /// Componentwise difference of two locations, kept as a `Point` so that the
    /// caller chooses when to relabel it as a displacement.
    pub fn sub(self, other: Point) -> (r: Point)
        requires
            in_i128(self@.vsub(other@).x),
            in_i128(self@.vsub(other@).y),
            in_i128(self@.vsub(other@).z),
        ensures
            r@ == self@.vsub(other@),
    {
        Point { x: self.x - other.x, y: self.y - other.y, z: self.z - other.z }
    }
}

impl Vector {
    pub fn add(self, other: Vector) -> (r: Vector)
        requires
            in_i128(self@.vadd(other@).x),
            in_i128(self@.vadd(other@).y),
            in_i128(self@.vadd(other@).z),
        ensures
            r@ == self@.vadd(other@),
    {
        Vector { x: self.x + other.x, y: self.y + other.y, z: self.z + other.z }
    }

    pub fn sub(self, other: Vector) -> (r: Vector)
        requires
            in_i128(self@.vsub(other@).x),
            in_i128(self@.vsub(other@).y),
            in_i128(self@.vsub(other@).z),
        ensures
            r@ == self@.vsub(other@),
    {
        Vector { x: self.x - other.x, y: self.y - other.y, z: self.z - other.z }
    }

    /// Multiply by a scalar from the right.
    pub fn mul(self, rhs: i128) -> (r: Vector)
        requires
            in_i128(self@.vscale(rhs as int).x),
            in_i128(self@.vscale(rhs as int).y),
            in_i128(self@.vscale(rhs as int).z),
        ensures
            r@ == self@.vscale(rhs as int),
    {
        Vector { x: rhs * self.x, y: rhs * self.y, z: rhs * self.z }
    }

    pub fn dot(&self, other: Vector) -> (r: i128)
        requires
            in_i128(self.x * other.x),
            in_i128(self.y * other.y),
            in_i128(self.z * other.z),
            in_i128(self.x * other.x + self.y * other.y),
            in_i128(self@.vdot(other@)),
        ensures
            r == self@.vdot(other@),
    {
        self.x * other.x + self.y * other.y + self.z * other.z
    }

    /// The square of the magnitude; avoiding the square root keeps the scalar
    /// arithmetic exact, so callers compare against squared tolerances.
    pub fn mag_squared(&self) -> (r: i128)
        requires
            in_i128(self.x * self.x),
            in_i128(self.y * self.y),
            in_i128(self.z * self.z),
            in_i128(self.x * self.x + self.y * self.y),
            in_i128(self@.vmagsq()),
        ensures
            r == self@.vmagsq(),
    {
        self.x * self.x + self.y * self.y + self.z * self.z
    }

    /// The cross product; it is zero exactly when the two vectors are
    /// parallel (or one of them is zero).
    pub fn cross(&self, other: Vector) -> (r: Vector)
        requires
            in_i128(self.y * other.z),
            in_i128(self.z * other.y),
            in_i128(self.z * other.x),
            in_i128(self.x * other.z),
            in_i128(self.x * other.y),
            in_i128(self.y * other.x),
            in_i128(self@.vcross(other@).x),
            in_i128(self@.vcross(other@).y),
            in_i128(self@.vcross(other@).z),
        ensures
            r@ == self@.vcross(other@),
    {
        Vector {
            x: self.y * other.z - self.z * other.y,
            y: self.z * other.x - self.x * other.z,
            z: self.x * other.y - self.y * other.x,
        }
    }
}

impl Scalar {
    /// Multiply a vector by this scalar from the left.
    pub fn mul(self, rhs: Vector) -> (r: Vector)
        requires
            in_i128(rhs@.vscale(self.0 as int).x),
            in_i128(rhs@.vscale(self.0 as int).y),
            in_i128(rhs@.vscale(self.0 as int).z),
        ensures
            r@ == rhs@.vscale(self.0 as int),
    {
        Vector { x: self.0 * rhs.x, y: self.0 * rhs.y, z: self.0 * rhs.z }
    }
}

/// The diagnostic text of a coordinate triple: `(x, y, z)`.
pub open spec fn triple_text(v: GVec) -> Seq<char> {
    "("@ + crate::render::dec_int(v.x) + ", "@ + crate::render::dec_int(v.y) + ", "@
        + crate::render::dec_int(v.z) + ")"@
}

impl Point {
    /// Diagnostic text `(x, y, z)`.
    pub fn display_string(&self) -> (r: String)
        ensures
            r@ == triple_text(self@),
    {
        let mut s = "(".to_owned();
        s.append(crate::render::dec_i128(self.x).as_str());
        s.append(", ");
        s.append(crate::render::dec_i128(self.y).as_str());
        s.append(", ");
        s.append(crate::render::dec_i128(self.z).as_str());
        s.append(")");
        s
    }
}

impl Vector {
    /// Diagnostic text `(x, y, z)`.
    pub fn display_string(&self) -> (r: String)
        ensures
            r@ == triple_text(self@),
    {
        let mut s = "(".to_owned();
        s.append(crate::render::dec_i128(self.x).as_str());
        s.append(", ");
        s.append(crate::render::dec_i128(self.y).as_str());
        s.append(", ");
        s.append(crate::render::dec_i128(self.z).as_str());
        s.append(")");
        s
    }
}

/// Mathematical model of a bounded line: the origin and the displacement that
/// reaches the far endpoint.
pub struct GLine {
    pub origin: GVec,
    pub dir: GVec,
}

impl GLine {
    /// The line one gets from `BoundedLine::new(p0, p1)`.
    pub open spec fn from_endpoints(p0: GVec, p1: GVec) -> GLine {
        GLine { origin: p0, dir: p1.vsub(p0) }
    }

    /// Evaluation of the line at an integer parameter.
    pub open spec fn eval(self, u: int) -> GVec {
        self.origin.vadd(self.dir.vscale(u))
    }

    /// Both endpoints lie inside the admissible coordinate range.  This is what
    /// the intersection test asks of its two lines.
    pub open spec fn in_range(self) -> bool {
        &&& self.origin.in_range()
        &&& self.origin.vadd(self.dir).in_range()
    }
}

/// The capability contract for curves: evaluate at a parameter, and (for
/// line-like curves) compute the bounded intersection with a line of the same
/// family.  Each implementor supplies the spec-level meaning of both
/// operations together with the domain on which they are defined.
pub trait ParametrizedCurve: Sized {
    type Scalar;

    /// Domain of `at`: the parameters this curve can be evaluated at.
    spec fn at_allowed(&self, u: Self::Scalar) -> bool;

    /// Mathematical value of `at`.
    spec fn at_spec(&self, u: Self::Scalar) -> GVec;

    /// Evaluate the curve at parameter `u`.
    fn at(&self, u: Self::Scalar) -> (r: Point)
        requires
            self.at_allowed(u),
        ensures
            r@ == self.at_spec(u),
    ;

    /// Domain of `intersection`.
    spec fn intersection_allowed(&self, other: &BoundedLine, tol: Option<Self::Scalar>) -> bool;

    /// Mathematical value of `intersection`.
    spec fn intersection_spec(&self, other: &BoundedLine, tol: Option<Self::Scalar>) -> Option<
        GVec,
    >;

    /// Where the two bounded curves meet, if they do so within `tol`.  A `None`
    /// tolerance demands exact equality of the two computed closest points.
    fn intersection(&self, other: &BoundedLine, tol: Option<Self::Scalar>) -> (r: Option<Point>)
        requires
            self.intersection_allowed(other, tol),
        ensures
            match r {
                Some(p) => self.intersection_spec(other, tol) == Some(p@),
                None => self.intersection_spec(other, tol) is None,
            },
    ;
}

/// The capability contract for surfaces: evaluate at a parameter pair.  An
/// extensibility hook; no surface type is provided yet.
pub trait ParametrizedSurface: Sized {
    type Scalar;

    /// Domain of `at`.
    spec fn at_allowed(&self, u: Self::Scalar, v: Self::Scalar) -> bool;

    /// Mathematical value of `at`.
    spec fn at_spec(&self, u: Self::Scalar, v: Self::Scalar) -> GVec;

    /// Evaluate the surface at parameters `u` and `v`.
    fn at(&self, u: Self::Scalar, v: Self::Scalar) -> (r: Point)
        requires
            self.at_allowed(u, v),
        ensures
            r@ == self.at_spec(u, v),
    ;
}

/// A straight line segment, stored as an origin and the displacement to the
/// far endpoint, so that evaluation at 0 gives one endpoint and evaluation at
/// 1 gives the other.
#[derive(Clone, Copy, Debug)]
pub struct BoundedLine {
    origin: Vector,
    dir: Vector,
}

impl View for BoundedLine {
    type V = GLine;

    closed spec fn view(&self) -> GLine {
        GLine { origin: self.origin@, dir: self.dir@ }
    }
}

impl BoundedLine {
    /// Build the segment from its two endpoints.
    pub fn new(p0: Point, p1: Point) -> (r: BoundedLine)
        requires
            in_i128(p1@.vsub(p0@).x),
            in_i128(p1@.vsub(p0@).y),
            in_i128(p1@.vsub(p0@).z),
        ensures
            r@ == GLine::from_endpoints(p0@, p1@),
    {
        let origin = Vector::from(p0);
        let dir = Vector::from(p1).sub(origin);
        BoundedLine { origin, dir }
    }
}

/// The diagnostic text of a bounded line: `BoundedLine{p0: (..), p1: (..)}`,
/// the far endpoint written as the displacement plus the origin.
pub open spec fn line_text(l: GLine) -> Seq<char> {
    "BoundedLine{p0: "@ + triple_text(l.origin) + ", p1: "@ + triple_text(l.dir.vadd(l.origin))
        + "}"@
}

impl BoundedLine {
    /// Diagnostic text `BoundedLine{p0: (..), p1: (..)}`.
    pub fn display_string(&self) -> (r: String)
        requires
            in_i128(self@.dir.vadd(self@.origin).x),
            in_i128(self@.dir.vadd(self@.origin).y),
            in_i128(self@.dir.vadd(self@.origin).z),
        ensures
            r@ == line_text(self@),
    {
        let p0 = Point::from(self.origin);
        let p1 = Point::from(self.dir.add(self.origin));
        let mut s = "BoundedLine{p0: ".to_owned();
        s.append(p0.display_string().as_str());
        s.append(", p1: ");
        s.append(p1.display_string().as_str());
        s.append("}");
        s
    }
}

impl ParametrizedCurve for BoundedLine {
    type Scalar = i128;

    open spec fn at_allowed(&self, u: i128) -> bool {
        &&& in_i128(u * self@.dir.x)
        &&& in_i128(u * self@.dir.y)
        &&& in_i128(u * self@.dir.z)
        &&& in_i128(self@.eval(u as int).x)
        &&& in_i128(self@.eval(u as int).y)
        &&& in_i128(self@.eval(u as int).z)
    }

    open spec fn at_spec(&self, u: i128) -> GVec {
        self@.eval(u as int)
    }

    fn at(&self, u: i128) -> (r: Point) {
        Point::from(self.origin.add(Scalar(u).mul(self.dir)))
    }

    open spec fn intersection_allowed(&self, other: &BoundedLine, tol: Option<i128>) -> bool {
        &&& self@.in_range()
        &&& other@.in_range()
        &&& (tol matches Some(t) ==> in_coord_range(t as int))
    }

    open spec fn intersection_spec(&self, other: &BoundedLine, tol: Option<i128>) -> Option<GVec> {
        line_intersection(self@, other@, spec_tol(tol))
    }

    fn intersection(&self, other: &BoundedLine, tol: Option<i128>) -> (r: Option<Point>) {
        intersection_impl(self, other, tol)
    }
}

/// The tolerance as a mathematical integer.
pub open spec fn spec_tol(tol: Option<i128>) -> Option<int> {
    match tol {
        None => None,
        Some(t) => Some(t as int),
    }
}

/// Round-toward-zero quotient for a positive divisor: the quotient machine
/// division computes, which differs from the Euclidean `/` of specifications
/// on negative numerators.
pub open spec fn div_trunc(n: int, d: int) -> int {
    if n >= 0 {
        n / d
    } else {
        -((-n) / d)
    }
}

/// The closest-approach line/line intersection algorithm, step for step.
///
/// The two quotients `a` and `b` project the offset between the origins and
/// the second direction onto the first direction; `u` and `t` are the
/// closest-approach parameters of the two lines; the candidate points are
/// rejected if they miss each other by more than the tolerance or if either
/// falls outside its own segment's span.  The computation degenerates when the
/// first direction is zero and when the two directions are parallel — which
/// over integer coordinates is exactly a zero cross product — so those cases
/// answer `None` before any quotient is formed.
pub open spec fn line_intersection(l0: GLine, l1: GLine, tol: Option<int>) -> Option<GVec> {
    if l0.dir.vmagsq() == 0 {
        None
    } else if l0.dir.vcross(l1.dir) == (GVec { x: 0, y: 0, z: 0 }) {
        None
    } else {
        let a = div_trunc(l0.dir.vdot(l1.origin.vsub(l0.origin)), l0.dir.vmagsq());
        let b = div_trunc(l0.dir.vdot(l1.dir), l0.dir.vmagsq());
        let c = l0.dir.vscale(b).vsub(l1.dir);
        if c.vmagsq() == 0 {
            None
        } else {
            let u = div_trunc(
                c.vdot(l1.origin) - c.vdot(l0.origin) + a * c.vdot(l0.origin) - a * c.vdot(
                    l0.origin.vadd(l0.dir),
                ),
                c.vmagsq(),
            );
            let t = a + u * b;
            let p0 = l0.eval(t);
            let p1 = l1.eval(u);
            let sq_dist = p1.vsub(p0).vmagsq();
            let miss = match tol {
                None => p0 != p1,
                Some(tv) => sq_dist > tv * tv,
            };
            if miss {
                None
            } else if p0.vsub(l0.origin).vmagsq() > l0.dir.vmagsq() || p1.vsub(
                l1.origin,
            ).vmagsq() > l1.dir.vmagsq() {
                None
            } else {
                Some(p0)
            }
        }
    }
}

/// Bounds on the squares and the squared magnitude of a vector whose
/// coordinates are within `k`.
proof fn lemma_magsq_facts(v: GVec, k: int)
    requires
        v.within(k),
        0 <= k,
    ensures
        0 <= v.x * v.x <= k * k,
        0 <= v.y * v.y <= k * k,
        0 <= v.z * v.z <= k * k,
        0 <= v.vmagsq() <= 3 * (k * k),
{
    assert(0 <= v.x * v.x <= k * k && 0 <= v.y * v.y <= k * k && 0 <= v.z * v.z <= k * k)
        by (nonlinear_arith)
        requires
            -k <= v.x <= k,
            -k <= v.y <= k,
            -k <= v.z <= k,
            0 <= k,
    ;
}

/// Componentwise products and the whole dot product of two bounded vectors are
/// bounded by the products of the bounds.
proof fn lemma_dot_facts(a: GVec, b: GVec, ka: int, kb: int)
    requires
        a.within(ka),
        b.within(kb),
        0 <= ka,
        0 <= kb,
    ensures
        -(ka * kb) <= a.x * b.x <= ka * kb,
        -(ka * kb) <= a.y * b.y <= ka * kb,
        -(ka * kb) <= a.z * b.z <= ka * kb,
        -(3 * (ka * kb)) <= a.vdot(b) <= 3 * (ka * kb),
{
    assert((-(ka * kb) <= a.x * b.x <= ka * kb) && (-(ka * kb) <= a.y * b.y <= ka * kb) && (-(ka
        * kb) <= a.z * b.z <= ka * kb)) by (nonlinear_arith)
        requires
            -ka <= a.x <= ka,
            -ka <= a.y <= ka,
            -ka <= a.z <= ka,
            -kb <= b.x <= kb,
            -kb <= b.y <= kb,
            -kb <= b.z <= kb,
            0 <= ka,
            0 <= kb,
    ;
}

/// Scaling a bounded vector by a bounded scalar bounds the result by the
/// product of the bounds.
proof fn lemma_scale_facts(v: GVec, kv: int, s: int, ks: int)
    requires
        v.within(kv),
        -ks <= s <= ks,
        0 <= kv,
        0 <= ks,
    ensures
        v.vscale(s).within(ks * kv),
{
    assert((-(ks * kv) <= s * v.x <= ks * kv) && (-(ks * kv) <= s * v.y <= ks * kv) && (-(ks * kv)
        <= s * v.z <= ks * kv)) by (nonlinear_arith)
        requires
            -kv <= v.x <= kv,
            -kv <= v.y <= kv,
            -kv <= v.z <= kv,
            -ks <= s <= ks,
            0 <= kv,
            0 <= ks,
    ;
}

/// A dot product against a vector bounded by `kw` is bounded by `kw` times the
/// squared magnitude of the other factor; this is what makes the projection
/// quotients of the intersection algorithm small.
proof fn lemma_dot_le_magsq(d: GVec, w: GVec, kw: int)
    requires
        w.within(kw),
        0 <= kw,
    ensures
        -(kw * d.vmagsq()) <= d.vdot(w) <= kw * d.vmagsq(),
{
    assert(-(kw * (d.x * d.x + d.y * d.y + d.z * d.z)) <= d.x * w.x + d.y * w.y + d.z * w.z <= kw
        * (d.x * d.x + d.y * d.y + d.z * d.z)) by (nonlinear_arith)
        requires
            -kw <= w.x <= kw,
            -kw <= w.y <= kw,
            -kw <= w.z <= kw,
            0 <= kw,
    ;
}

/// The truncated quotient lies within `k` whenever the numerator lies within
/// `k` times the divisor.
proof fn lemma_div_trunc_bound(n: int, d: int, k: int)
    requires
        1 <= d,
        0 <= k,
        -(k * d) <= n <= k * d,
    ensures
        -k <= div_trunc(n, d) <= k,
{
    if n >= 0 {
        vstd::arithmetic::div_mod::lemma_div_pos_is_pos(n, d);
        vstd::arithmetic::div_mod::lemma_div_is_ordered(n, k * d, d);
        vstd::arithmetic::div_mod::lemma_div_by_multiple(k, d);
    } else {
        vstd::arithmetic::div_mod::lemma_div_pos_is_pos(-n, d);
        vstd::arithmetic::div_mod::lemma_div_is_ordered(-n, k * d, d);
        vstd::arithmetic::div_mod::lemma_div_by_multiple(k, d);
    }
}

/// The truncated quotient never exceeds the numerator in magnitude.
proof fn lemma_div_trunc_range(n: int, d: int)
    requires
        1 <= d,
    ensures
        n >= 0 ==> 0 <= div_trunc(n, d) <= n,
        n < 0 ==> n <= div_trunc(n, d) <= 0,
{
    if n >= 0 {
        vstd::arithmetic::div_mod::lemma_div_pos_is_pos(n, d);
        vstd::arithmetic::div_mod::lemma_div_nonincreasing(n, d);
    } else {
        vstd::arithmetic::div_mod::lemma_div_pos_is_pos(-n, d);
        vstd::arithmetic::div_mod::lemma_div_nonincreasing(-n, d);
    }
}

/// Dividing a dot product against a `kw`-bounded vector by the squared
/// magnitude of the other factor yields a quotient within `kw`.
proof fn lemma_quotient_bound(d: GVec, w: GVec, kw: int)
    requires
        1 <= d.vmagsq(),
        w.within(kw),
        0 <= kw,
    ensures
        -kw <= div_trunc(d.vdot(w), d.vmagsq()) <= kw,
{
    lemma_dot_le_magsq(d, w, kw);
    lemma_div_trunc_bound(d.vdot(w), d.vmagsq(), kw);
}

/// Dot products distribute over vector sums.
proof fn lemma_dot_add(c: GVec, a: GVec, b: GVec)
    ensures
        c.vdot(a.vadd(b)) == c.vdot(a) + c.vdot(b),
{
    assert(c.x * (a.x + b.x) + c.y * (a.y + b.y) + c.z * (a.z + b.z) == (c.x * a.x + c.y * a.y
        + c.z * a.z) + (c.x * b.x + c.y * b.y + c.z * b.z)) by (nonlinear_arith);
}

/// Dot products distribute over vector differences.
proof fn lemma_dot_sub(c: GVec, a: GVec, b: GVec)
    ensures
        c.vdot(a.vsub(b)) == c.vdot(a) - c.vdot(b),
{
    assert(c.x * (a.x - b.x) + c.y * (a.y - b.y) + c.z * (a.z - b.z) == (c.x * a.x + c.y * a.y
        + c.z * a.z) - (c.x * b.x + c.y * b.y + c.z * b.z)) by (nonlinear_arith);
}

/// Scalars move out of dot products.
proof fn lemma_dot_scale(c: GVec, v: GVec, s: int)
    ensures
        c.vdot(v.vscale(s)) == s * c.vdot(v),
{
    assert(c.x * (s * v.x) == s * (c.x * v.x)) by (nonlinear_arith);
    assert(c.y * (s * v.y) == s * (c.y * v.y)) by (nonlinear_arith);
    assert(c.z * (s * v.z) == s * (c.z * v.z)) by (nonlinear_arith);
    vstd::arithmetic::mul::lemma_mul_is_distributive_add(s, c.x * v.x, c.y * v.y);
    vstd::arithmetic::mul::lemma_mul_is_distributive_add(s, c.x * v.x + c.y * v.y, c.z * v.z);
}

/// Law (curve evaluation boundary): the line built from `p0` and `p1`
/// evaluates to `p0` at parameter 0 and to `p1` at parameter 1, exactly.
pub proof fn lemma_line_endpoints(p0: GVec, p1: GVec)
    ensures
        GLine::from_endpoints(p0, p1).eval(0) == p0,
        GLine::from_endpoints(p0, p1).eval(1) == p1,
{
}

/// An integer multiple of a direction is parallel to it: the cross product
/// vanishes.
proof fn lemma_multiple_has_zero_cross(d: GVec, k: int)
    ensures
        d.vcross(d.vscale(k)) == (GVec { x: 0, y: 0, z: 0 }),
{
    assert(d.y * (k * d.z) - d.z * (k * d.y) == 0) by (nonlinear_arith);
    assert(d.z * (k * d.x) - d.x * (k * d.z) == 0) by (nonlinear_arith);
    assert(d.x * (k * d.y) - d.y * (k * d.x) == 0) by (nonlinear_arith);
}

/// Law (parallel lines): two lines whose directions have a zero cross product
/// — every parallel pair, coincident or not, a degenerate zero direction
/// included — admit no intersection, whatever the tolerance: the computation
/// guards the parallel degeneracy before any quotient or tolerance test.
pub proof fn lemma_parallel_no_intersection(l0: GLine, l1: GLine, tol: Option<int>)
    requires
        l0.dir.vcross(l1.dir) == (GVec { x: 0, y: 0, z: 0 }),
    ensures
        line_intersection(l0, l1, tol) is None,
{
}

/// Law (parallel lines, stated over a scalar multiple): when the second
/// line's direction is an integer multiple of the first's, the two are
/// parallel and the intersection answers `None` for every tolerance.
pub proof fn lemma_parallel_multiple_no_intersection(l0: GLine, l1: GLine, k: int, tol: Option<
    int,
>)
    requires
        l1.dir == l0.dir.vscale(k),
    ensures
        line_intersection(l0, l1, tol) is None,
{
    lemma_multiple_has_zero_cross(l0.dir, k);
    lemma_parallel_no_intersection(l0, l1, tol);
}

/// Law (tolerance widening): an intersection found within tolerance `t1` is
/// found, unchanged, within every larger tolerance `t2`; only the comparison of
/// the squared distance against the squared tolerance depends on the tolerance,
/// and it is monotone.
pub proof fn lemma_tolerance_monotone(l0: GLine, l1: GLine, t1: int, t2: int)
    requires
        0 <= t1 <= t2,
        line_intersection(l0, l1, Some(t1)) is Some,
    ensures
        line_intersection(l0, l1, Some(t2)) == line_intersection(l0, l1, Some(t1)),
{
    assert(t1 * t1 <= t2 * t2) by (nonlinear_arith)
        requires
            0 <= t1 <= t2,
    ;
}

/// Law (tolerance widening, narrowing direction): two lines that miss each
/// other at some tolerance miss each other at every smaller one.
pub proof fn lemma_tolerance_narrowing(l0: GLine, l1: GLine, t1: int, t2: int)
    requires
        0 <= t1 <= t2,
        line_intersection(l0, l1, Some(t2)) is None,
    ensures
        line_intersection(l0, l1, Some(t1)) is None,
{
    if line_intersection(l0, l1, Some(t1)) is Some {
        lemma_tolerance_monotone(l0, l1, t1, t2);
    }
}

/// Round-toward-zero division of an `i128` by a positive divisor.
fn div_toward_zero(n: i128, d: i128) -> (q: i128)
    requires
        1 <= d,
    ensures
        q == div_trunc(n as int, d as int),
        n >= 0 ==> 0 <= q <= n,
        n < 0 ==> n <= q <= 0,
{
    proof {
        lemma_div_trunc_range(n as int, d as int);
        if n == 0 {
            vstd::arithmetic::div_mod::lemma_div_of0(d as int);
        }
    }
    let q_opt = n.checked_div(d);
    assert(q_opt is Some);
    q_opt.unwrap()
}

/// The bounded-line intersection, verified against `line_intersection`.  The
/// coordinate bound of `GLine::in_range` keeps every intermediate value of the
/// closest-approach computation within `i128`.
fn intersection_impl(line0: &BoundedLine, line1: &BoundedLine, tol: Option<i128>) -> (r: Option<
    Point,
>)
    requires
        line0@.in_range(),
        line1@.in_range(),
        tol matches Some(t) ==> in_coord_range(t as int),
    ensures
        match r {
            Some(p) => line_intersection(line0@, line1@, spec_tol(tol)) == Some(p@),
            None => line_intersection(line0@, line1@, spec_tol(tol)) is None,
        },
{
    let ghost l0 = line0@;
    let ghost l1 = line1@;
    proof {
        // The two origins lie within the coordinate bound, and each direction
        // is a difference of two bounded endpoints.
        assert(l0.origin.within(4096) && l1.origin.within(4096));
        assert(l0.dir.within(8192) && l1.dir.within(8192));
        lemma_magsq_facts(l0.dir, 8192);
        lemma_magsq_facts(l1.dir, 8192);
    }
    let dmag = line0.dir.mag_squared();
    if dmag == 0 {
        return None;
    }
    // Parallel directions — exactly a zero cross product over integer
    // coordinates — degenerate the closest-approach computation; guard them
    // before any quotient is formed.
    proof {
        lemma_dot_facts(l0.dir, l1.dir, 8192, 8192);
        assert((-67108864 <= l0.dir.y * l1.dir.z <= 67108864) && (-67108864 <= l0.dir.z * l1.dir.y
            <= 67108864) && (-67108864 <= l0.dir.z * l1.dir.x <= 67108864) && (-67108864 <= l0.dir.x
            * l1.dir.z <= 67108864) && (-67108864 <= l0.dir.x * l1.dir.y <= 67108864) && (-67108864
            <= l0.dir.y * l1.dir.x <= 67108864)) by (nonlinear_arith)
            requires
                -8192 <= l0.dir.x <= 8192,
                -8192 <= l0.dir.y <= 8192,
                -8192 <= l0.dir.z <= 8192,
                -8192 <= l1.dir.x <= 8192,
                -8192 <= l1.dir.y <= 8192,
                -8192 <= l1.dir.z <= 8192,
        ;
    }
    let cr = line0.dir.cross(line1.dir);
    if cr.x == 0 && cr.y == 0 && cr.z == 0 {
        proof {
            assert(l0.dir.vcross(l1.dir) == (GVec { x: 0, y: 0, z: 0 }));
        }
        return None;
    }
    // a: projection of the offset between the origins onto the first direction.
    let o_diff = line1.origin.sub(line0.origin);
    proof {
        assert(o_diff@.within(8192));
        lemma_dot_facts(l0.dir, o_diff@, 8192, 8192);
        lemma_quotient_bound(l0.dir, o_diff@, 8192);
    }
    let a_num = line0.dir.dot(o_diff);
    let a = div_toward_zero(a_num, dmag);
    // b: projection of the second direction onto the first.
    proof {
        lemma_dot_facts(l0.dir, l1.dir, 8192, 8192);
        lemma_quotient_bound(l0.dir, l1.dir, 8192);
    }
    let b_num = line0.dir.dot(line1.dir);
    let b = div_toward_zero(b_num, dmag);
    assert(-8192 <= a <= 8192 && -8192 <= b <= 8192);
    // c: how far the second direction is from b times the first; zero exactly
    // when the projection reproduces it, the degenerate (parallel) case.
    proof {
        lemma_scale_facts(l0.dir, 8192, b as int, 8192);
    }
    let b_d0 = Scalar(b).mul(line0.dir);
    let c = b_d0.sub(line1.dir);
    proof {
        assert(c@.within(67117056));  // 8192 * 8192 + 8192
        lemma_magsq_facts(c@, 67117056);
    }
    let cmag = c.mag_squared();
    if cmag == 0 {
        return None;
    }
    // u: the closest-approach parameter on the second line.
    proof {
        lemma_dot_facts(c@, l1.origin, 67117056, 4096);
        lemma_dot_facts(c@, l0.origin, 67117056, 4096);
        lemma_dot_facts(c@, l0.origin.vadd(l0.dir), 67117056, 4096);
    }
    let c_o1 = c.dot(line1.origin);
    let c_o0 = c.dot(line0.origin);
    let far = line0.origin.add(line0.dir);
    let c_far = c.dot(far);
    proof {
        // |c.vdot(v)| <= 3 * 67117056 * 4096 = 824734384128 for each dot value.
        assert((-6756224074776576 <= a * c_o0 <= 6756224074776576) && (-6756224074776576 <= a
            * c_far <= 6756224074776576)) by (nonlinear_arith)
            requires
                -8192 <= a <= 8192,
                -824734384128 <= c_o0 <= 824734384128,
                -824734384128 <= c_far <= 824734384128,
        ;
    }
    let u_num = c_o1 - c_o0 + a * c_o0 - a * c_far;
    let u = div_toward_zero(u_num, cmag);
    proof {
        // The numerator is the dot product of c with
        // delta - a * d0 (delta being the offset between the origins), so the
        // quotient is bounded by that vector's coordinate bound.
        let delta = l1.origin.vsub(l0.origin);
        let mvec = delta.vsub(l0.dir.vscale(a as int));
        lemma_dot_add(c@, l0.origin, l0.dir);
        assert(c_far == c_o0 + c@.vdot(l0.dir));
        vstd::arithmetic::mul::lemma_mul_is_distributive_add(a as int, c_o0 as int, c@.vdot(l0.dir));
        assert(u_num == c_o1 - c_o0 - a * c@.vdot(l0.dir));
        lemma_dot_sub(c@, l1.origin, l0.origin);
        lemma_dot_scale(c@, l0.dir, a as int);
        lemma_dot_sub(c@, delta, l0.dir.vscale(a as int));
        assert(c@.vdot(mvec) == u_num);
        lemma_scale_facts(l0.dir, 8192, a as int, 8192);
        assert(mvec.within(67117056));  // 8192 + 8192 * 8192, padded to the same bound as c
        lemma_quotient_bound(c@, mvec, 67117056);
        assert(-67117056 <= u <= 67117056);
    }
    // t: the closest-approach parameter on the first line.
    proof {
        assert(-549822930944 <= u * b <= 549822930944) by (nonlinear_arith)
            requires
                -67117056 <= u <= 67117056,
                -8192 <= b <= 8192,
        ;
    }
    let t = a + u * b;
    proof {
        assert(-549822939136 <= t <= 549822939136);
        // Evaluating the two lines at t and u stays within i128.
        assert((-4504149733081088 <= t * l0.dir.x <= 4504149733081088) && (-4504149733081088 <= t
            * l0.dir.y <= 4504149733081088) && (-4504149733081088 <= t * l0.dir.z
            <= 4504149733081088)) by (nonlinear_arith)
            requires
                -549822939136 <= t <= 549822939136,
                -8192 <= l0.dir.x <= 8192,
                -8192 <= l0.dir.y <= 8192,
                -8192 <= l0.dir.z <= 8192,
        ;
        assert((-549822930944 * 8192 <= u * l1.dir.x <= 549822930944 * 8192) && (-549822930944
            * 8192 <= u * l1.dir.y <= 549822930944 * 8192) && (-549822930944 * 8192 <= u * l1.dir.z
            <= 549822930944 * 8192)) by (nonlinear_arith)
            requires
                -67117056 <= u <= 67117056,
                -8192 <= l1.dir.x <= 8192,
                -8192 <= l1.dir.y <= 8192,
                -8192 <= l1.dir.z <= 8192,
        ;
    }
    let p0 = line0.at(t);
    let p1 = line1.at(u);
    proof {
        assert(p0@.within(4504149733085184) && p1@.within(4504149733085184));
    }
    let dp = p1.sub(p0);
    proof {
        assert(dp@.within(9008299466170368));
        lemma_magsq_facts(dp@, 9008299466170368);
    }
    let sq_dist = Vector::from(dp).mag_squared();
    let miss = match tol {
        None => {
            let eq = p0 == p1;
            proof {
                assert(eq <==> p0@ == p1@);
            }
            !eq
        },
        Some(v) => {
            proof {
                assert(-16777216 <= v * v <= 16777216) by (nonlinear_arith)
                    requires
                        -4096 <= v <= 4096,
                ;
            }
            sq_dist > v * v
        },
    };
    if miss {
        return None;
    }
    // Reject a candidate that falls outside its own segment's span.
    let v0 = Vector::from(p0).sub(line0.origin);
    let v1 = Vector::from(p1).sub(line1.origin);
    proof {
        assert(v0@.within(9008299466170368) && v1@.within(9008299466170368));
        lemma_magsq_facts(v0@, 9008299466170368);
        lemma_magsq_facts(v1@, 9008299466170368);
    }
    let other_mag = line1.dir.mag_squared();
    let sq_p0 = v0.mag_squared();
    let sq_p1 = v1.mag_squared();
    if sq_p0 > dmag || sq_p1 > other_mag {
        return None;
    }
    Some(p0)
}

} // verus!
