use crate::math::{Point, ONE};
use vstd::prelude::*;

verus! {

/// Where the closest point of a segment lies.
#[derive(Clone, Copy, Debug)]
pub enum SegmentPointLocation {
    /// On the endpoint of that index (0 or 1).
    OnVertex(usize),
    /// On the open edge, with the weights of the two endpoints.
    OnEdge([i64; 2]),
}

/// Where the closest point of a triangle lies.
#[derive(Clone, Copy, Debug)]
pub enum TrianglePointLocation {
    /// On the vertex of that index (0, 1 or 2).
    OnVertex(usize),
    /// On the open edge of that index, with the weights of its two endpoints.
    /// Edge 0 joins vertices 0 and 1, edge 1 joins 1 and 2, edge 2 joins 0 and 2.
    OnEdge(usize, [i64; 2]),
    /// Strictly inside the triangle, with the weights of the three vertices.
    OnFace([i64; 3]),
    /// Off the triangle altogether.
    OnSolid,
}

/// The closest point to the origin on the hull of a simplex, as the
/// closest-point routine for that hull reported it.
#[derive(Clone, Copy, Debug)]
pub enum HullProjection {
    /// The hull of a single vertex: there is nothing to project on.
    Vertex,
    /// The hull is the segment of vertices 0 and 1.
    Segment(Point, SegmentPointLocation),
    /// The hull is the triangle of vertices 0, 1 and 2.
    Triangle(Point, TrianglePointLocation),
}

impl HullProjection {
    /// The vertex on which the report puts the closest point, if it puts it on one.
    pub open spec fn on_vertex(self) -> Option<int> {
        match self {
            HullProjection::Vertex => Some(0int),
            HullProjection::Segment(_, SegmentPointLocation::OnVertex(i)) => Some(i as int),
            HullProjection::Triangle(_, TrianglePointLocation::OnVertex(i)) => Some(i as int),
            _ => None,
        }
    }

    /// Whether the report is one that a hull of dimension `dim` can give.
    pub open spec fn fits(self, dim: nat) -> bool {
        match self {
            HullProjection::Vertex => dim == 0,
            HullProjection::Segment(_, SegmentPointLocation::OnVertex(i)) => dim == 1 && i < 2,
            HullProjection::Segment(_, SegmentPointLocation::OnEdge(_)) => dim == 1,
            HullProjection::Triangle(_, TrianglePointLocation::OnVertex(i)) => dim == 2 && i < 3,
            HullProjection::Triangle(_, _) => dim == 2,
        }
    }
}

/// The mathematical state of a [`VoronoiSimplex2`].
#[verifier::ext_equal]
pub struct SimplexModel<T> {
    /// The three vertex slots; slots `0..=dim` are the simplex.
    pub vertices: Seq<Point>,
    /// The payload of each slot.
    pub data: Seq<T>,
    /// The weights of the last projection, for slots 0 and 1.
    pub proj: Seq<i64>,
    /// The dimension: one less than the number of vertices.
    pub dim: nat,
    /// For each vertex of the snapshot, the slot that holds it now.
    pub prev_vertices: Seq<usize>,
    /// The weights at the snapshot.
    pub prev_proj: Seq<i64>,
    /// The dimension at the snapshot.
    pub prev_dim: nat,
}

/// The sequence `s` with the items at `i` and `j` exchanged.
pub open spec fn exchanged<A>(s: Seq<A>, i: int, j: int) -> Seq<A> {
    s.update(i, s[j]).update(j, s[i])
}

impl<T> SimplexModel<T> {
    /// Whether the state is one of a simplex: three slots, two weights, a
    /// dimension of at most 2, and snapshot indices that name slots.
    pub open spec fn wf(self) -> bool {
        &&& self.vertices.len() == 3
        &&& self.data.len() == 3
        &&& self.proj.len() == 2
        &&& self.prev_vertices.len() == 3
        &&& self.prev_proj.len() == 2
        &&& self.dim <= 2
        &&& self.prev_dim <= 2
        &&& forall|j: int| 0 <= j < 3 ==> #[trigger] self.prev_vertices[j] < 3
    }

    /// Whether `pt` is a vertex of the simplex, coordinate for coordinate.
    pub open spec fn contains(self, pt: Point) -> bool {
        ||| self.vertices[0] == pt
        ||| self.dim >= 1 && self.vertices[1] == pt
        ||| self.dim >= 2 && self.vertices[2] == pt
    }

    /// Whether no two vertices of the simplex coincide.
    pub open spec fn distinct(self) -> bool {
        &&& self.dim >= 1 ==> self.vertices[0] != self.vertices[1]
        &&& self.dim >= 2 ==> self.vertices[0] != self.vertices[2] && self.vertices[1]
            != self.vertices[2]
    }

    /// The largest squared distance from the origin among the first `n` slots.
    pub open spec fn max_sq_len_upto(self, n: int) -> int
        decreases n,
    {
        if n <= 0 {
            0
        } else {
            let rest = self.max_sq_len_upto(n - 1);
            let here = self.vertices[n - 1].sq_len();
            if here > rest {
                here
            } else {
                rest
            }
        }
    }

    /// The largest squared distance of a vertex of the simplex from the origin.
    pub open spec fn max_sq_len(self) -> int {
        self.max_sq_len_upto(self.dim + 1 as int)
    }

    /// Slots `i` and `j` exchanged, payloads and snapshot indices with them.
    pub open spec fn swap(self, i: int, j: int) -> Self {
        SimplexModel {
            vertices: exchanged(self.vertices, i, j),
            data: exchanged(self.data, i, j),
            prev_vertices: exchanged(self.prev_vertices, i, j),
            ..self
        }
    }

    /// The single-vertex simplex of `pt`.
    pub open spec fn reset(self, pt: Point, data: T) -> Self {
        SimplexModel {
            vertices: self.vertices.update(0, pt),
            data: self.data.update(0, data),
            dim: 0,
            prev_dim: 0,
            ..self
        }
    }

    /// The state with the snapshot taken: the present dimension and weights,
    /// and each snapshot vertex in its own slot.
    pub open spec fn snapshot(self) -> Self {
        SimplexModel {
            prev_dim: self.dim,
            prev_proj: self.proj,
            prev_vertices: seq![0usize, 1usize, 2usize],
            ..self
        }
    }

    /// The slot that a further vertex goes to: the one after the last, and the
    /// last one of a triangle, which has no slot to spare.
    pub open spec fn next_slot(self) -> nat {
        if self.dim < 2 {
            self.dim + 1
        } else {
            2
        }
    }

    /// The state after `pt` was offered: the snapshot is taken either way, and
    /// `pt` becomes the last vertex unless the simplex contains it already.
    pub open spec fn add_point(self, pt: Point, data: T) -> Self {
        let s = self.snapshot();
        if self.contains(pt) {
            s
        } else {
            SimplexModel {
                vertices: s.vertices.update(self.next_slot() as int, pt),
                data: s.data.update(self.next_slot() as int, data),
                dim: self.next_slot(),
                ..s
            }
        }
    }

    /// The state with only slot 0 left, at full weight.
    pub open spec fn collapsed(self) -> Self {
        SimplexModel { proj: self.proj.update(0, ONE), dim: 0, ..self }
    }

    /// The state with slots 0 and 1 left, at the weights `w0` and `w1`.
    pub open spec fn on_edge(self, w0: i64, w1: i64) -> Self {
        SimplexModel { proj: seq![w0, w1], dim: 1, ..self }
    }

    /// The least sub-simplex that carries the closest point reported by `hull`.
    pub open spec fn reduce(self, hull: HullProjection) -> Self {
        match hull {
            HullProjection::Vertex => SimplexModel { proj: self.proj.update(0, ONE), ..self },
            HullProjection::Segment(_, SegmentPointLocation::OnVertex(i)) => {
                if i == 0 {
                    self.collapsed()
                } else {
                    self.swap(0, 1).collapsed()
                }
            },
            HullProjection::Segment(_, SegmentPointLocation::OnEdge(w)) => self.on_edge(w[0], w[1]),
            HullProjection::Triangle(_, TrianglePointLocation::OnVertex(i)) => self.swap(
                0,
                i as int,
            ).collapsed(),
            HullProjection::Triangle(_, TrianglePointLocation::OnEdge(e, w)) => {
                if e == 0 {
                    self.on_edge(w[0], w[1])
                } else if e == 1 {
                    self.swap(0, 2).on_edge(w[1], w[0])
                } else if e == 2 {
                    self.swap(1, 2).on_edge(w[0], w[1])
                } else {
                    self
                }
            },
            HullProjection::Triangle(_, _) => self,
        }
    }

    /// The closest point to the origin that `hull` reports for this simplex.
    pub open spec fn origin_projection(self, hull: HullProjection) -> Point {
        match hull {
            HullProjection::Vertex => self.vertices[0],
            HullProjection::Segment(p, _) => p,
            HullProjection::Triangle(p, _) => p,
        }
    }
}


/// A simplex of dimension up to 2 that keeps, of its vertices, the ones whose
/// Voronoi region holds the origin.
pub struct VoronoiSimplex2<T: Copy> {
    prev_vertices: [usize; 3],
    prev_dim: usize,
    prev_proj: [i64; 2],
    vertices: [Point; 3],
    data: [T; 3],
    proj: [i64; 2],
    dim: usize,
}

impl<T: Copy> View for VoronoiSimplex2<T> {
    type V = SimplexModel<T>;

    closed spec fn view(&self) -> SimplexModel<T> {
        SimplexModel {
            vertices: self.vertices@,
            data: self.data@,
            proj: self.proj@,
            dim: self.dim as nat,
            prev_vertices: self.prev_vertices@,
            prev_proj: self.prev_proj@,
            prev_dim: self.prev_dim as nat,
        }
    }
}

impl<T: Copy> VoronoiSimplex2<T> {
    /// Creates a simplex of the origin alone, every payload slot holding `fill`.
    pub fn new(fill: T) -> (s: Self)
        ensures
            s@.wf(),
            s@.dim == 0,
            s@.prev_dim == 0,
            s@.vertices == seq![Point { x: 0, y: 0, z: 0 }; 3],
            s@.data == seq![fill; 3],
            s@.proj == seq![0i64; 2],
            s@.prev_proj == seq![0i64; 2],
            s@.prev_vertices == seq![0usize, 1usize, 2usize],
    {
        let o: Point = Point::origin();
        VoronoiSimplex2 {
            prev_vertices: [0, 1, 2],
            prev_proj: [0, 0],
            prev_dim: 0,
            vertices: [o, o, o],
            data: [fill, fill, fill],
            proj: [0, 0],
            dim: 0,
        }
    }

    fn swap(&mut self, i1: usize, i2: usize)
        requires
            old(self)@.wf(),
            i1 < 3,
            i2 < 3,
        ensures
            final(self)@ == old(self)@.swap(i1 as int, i2 as int),
            final(self)@.wf(),
    {
        let p1: Point = self.vertices[i1];
        let p2: Point = self.vertices[i2];
        self.vertices[i1] = p2;
        self.vertices[i2] = p1;
        let d1: T = self.data[i1];
        let d2: T = self.data[i2];
        self.data[i1] = d2;
        self.data[i2] = d1;
        let v1: usize = self.prev_vertices[i1];
        let v2: usize = self.prev_vertices[i2];
        self.prev_vertices[i1] = v2;
        self.prev_vertices[i2] = v1;
    }

    /// Collapses the simplex to the single vertex `pt`.
    pub fn reset(&mut self, pt: Point, data: T)
        requires
            old(self)@.wf(),
        ensures
            final(self)@ == old(self)@.reset(pt, data),
            final(self)@.wf(),
            final(self)@.dim == 0,
            final(self)@.vertices[0] == pt,
            final(self)@.data[0] == data,
    {
        self.prev_dim = 0;
        self.dim = 0;
        self.vertices[0] = pt;
        self.data[0] = data;
    }

    /// Offers `pt` as a further vertex. A point that the simplex holds already
    /// is turned down; the snapshot of the state before is taken either way.
    ///
    /// The dimension grows by one and stops at 2: a triangle has no slot to
    /// spare, and a new point takes the place of its last vertex.
    pub fn add_point(&mut self, pt: Point, data: T) -> (added: bool)
        requires
            old(self)@.wf(),
        ensures
            added == !old(self)@.contains(pt),
            final(self)@ == old(self)@.add_point(pt, data),
            final(self)@.wf(),
            !added ==> final(self)@.dim == old(self)@.dim,
            added ==> final(self)@.dim == old(self)@.next_slot(),
            added ==> final(self)@.vertices[final(self)@.dim as int] == pt && final(
                self
            )@.data[final(self)@.dim as int] == data,
            final(self)@.prev_dim == old(self)@.dim,
            final(self)@.prev_proj == old(self)@.proj,
            old(self)@.distinct() ==> final(self)@.distinct(),
    {
        self.prev_dim = self.dim;
        self.prev_proj = self.proj;
        self.prev_vertices = [0, 1, 2];
        if self.contains_point(&pt) {
            return false;
        }
        if self.dim < 2 {
            self.dim += 1;
        }
        self.vertices[self.dim] = pt;
        self.data[self.dim] = data;
        true
    }

    /// The weight that the last projection gave to vertex `i`.
    pub fn proj_coord(&self, i: usize) -> (w: i64)
        requires
            self@.wf(),
            i <= self@.dim,
            i < 2,
        ensures
            w == self@.proj[i as int],
    {
        self.proj[i]
    }

    /// Vertex `i` of the simplex.
    pub fn point(&self, i: usize) -> (p: &Point)
        requires
            self@.wf(),
            i <= self@.dim,
        ensures
            *p == self@.vertices[i as int],
    {
        &self.vertices[i]
    }

    /// The payload of vertex `i`.
    pub fn data(&self, i: usize) -> (d: &T)
        requires
            self@.wf(),
            i <= self@.dim,
        ensures
            *d == self@.data[i as int],
    {
        &self.data[i]
    }

    /// The weight that vertex `i` had at the snapshot.
    pub fn prev_proj_coord(&self, i: usize) -> (w: i64)
        requires
            self@.wf(),
            i <= self@.dim,
            i < 2,
        ensures
            w == self@.prev_proj[i as int],
    {
        self.prev_proj[i]
    }

    /// Vertex `i` of the snapshot.
    pub fn prev_point(&self, i: usize) -> (p: &Point)
        requires
            self@.wf(),
            i <= self@.prev_dim,
        ensures
            *p == self@.vertices[self@.prev_vertices[i as int] as int],
    {
        &self.vertices[self.prev_vertices[i]]
    }

    /// The payload of vertex `i` of the snapshot.
    pub fn prev_data(&self, i: usize) -> (d: &T)
        requires
            self@.wf(),
            i <= self@.prev_dim,
        ensures
            *d == self@.data[self@.prev_vertices[i as int] as int],
    {
        &self.data[self.prev_vertices[i]]
    }

    /// Takes the closest point to the origin that `hull` reports for this
    /// simplex, and keeps of the simplex the vertices that carry it: the
    /// reported vertex alone, in slot 0 and at full weight; the two ends of the
    /// reported edge, in slots 0 and 1 with their weights; or all of it.
    pub fn project_origin_and_reduce(&mut self, hull: &HullProjection) -> (p: Point)
        requires
            old(self)@.wf(),
            hull.fits(old(self)@.dim),
        ensures
            p == old(self)@.origin_projection(*hull),
            final(self)@ == old(self)@.reduce(*hull),
            final(self)@.wf(),
            final(self)@.dim <= old(self)@.dim,
            old(self)@.distinct() ==> final(self)@.distinct(),
            final(self)@.prev_dim == old(self)@.prev_dim,
            final(self)@.prev_proj == old(self)@.prev_proj,
            old(self)@.prev_vertices == seq![0usize, 1usize, 2usize] ==> forall|i: int|
                0 <= i < 3 ==> final(self)@.vertices[#[trigger] final(self)@.prev_vertices[i] as int]
                    == old(self)@.vertices[i],
            match *hull {
                HullProjection::Vertex => final(self)@.dim == 0 && final(self)@.proj[0] == ONE,
                HullProjection::Segment(_, SegmentPointLocation::OnVertex(i))
                | HullProjection::Triangle(_, TrianglePointLocation::OnVertex(i)) => {
                    &&& final(self)@.dim == 0
                    &&& final(self)@.vertices[0] == old(self)@.vertices[i as int]
                    &&& final(self)@.data[0] == old(self)@.data[i as int]
                    &&& final(self)@.proj[0] == ONE
                },
                HullProjection::Segment(_, SegmentPointLocation::OnEdge(w)) => {
                    &&& final(self)@.dim == 1
                    &&& final(self)@.vertices == old(self)@.vertices
                    &&& final(self)@.proj == w@
                },
                HullProjection::Triangle(_, TrianglePointLocation::OnEdge(e, w)) => {
                    if e == 0 {
                        &&& final(self)@.dim == 1
                        &&& final(self)@.vertices[0] == old(self)@.vertices[0]
                        &&& final(self)@.vertices[1] == old(self)@.vertices[1]
                        &&& final(self)@.proj == w@
                    } else if e == 1 {
                        &&& final(self)@.dim == 1
                        &&& final(self)@.vertices[0] == old(self)@.vertices[2]
                        &&& final(self)@.vertices[1] == old(self)@.vertices[1]
                        &&& final(self)@.proj == seq![w[1], w[0]]
                    } else if e == 2 {
                        &&& final(self)@.dim == 1
                        &&& final(self)@.vertices[0] == old(self)@.vertices[0]
                        &&& final(self)@.vertices[1] == old(self)@.vertices[2]
                        &&& final(self)@.proj == w@
                    } else {
                        *final(self) == *old(self)
                    }
                },
                HullProjection::Triangle(_, _) => *final(self) == *old(self),
            },
    {
        match *hull {
            HullProjection::Vertex => {
                self.proj[0] = ONE;
                self.vertices[0]
            },
            HullProjection::Segment(p, location) => {
                match location {
                    SegmentPointLocation::OnVertex(i) => {
                        self.proj[0] = ONE;
                        if i == 1 {
                            self.swap(0, 1);
                        }
                        self.dim = 0;
                    },
                    SegmentPointLocation::OnEdge(coords) => {
                        self.proj = coords;
                    },
                }
                p
            },
            HullProjection::Triangle(p, location) => {
                match location {
                    TrianglePointLocation::OnVertex(i) => {
                        self.swap(0, i);
                        self.proj[0] = ONE;
                        self.dim = 0;
                    },
                    TrianglePointLocation::OnEdge(e, coords) => {
                        if e == 0 {
                            self.proj = coords;
                            self.dim = 1;
                        } else if e == 1 {
                            self.swap(0, 2);
                            self.proj[0] = coords[1];
                            self.proj[1] = coords[0];
                            self.dim = 1;
                        } else if e == 2 {
                            self.swap(1, 2);
                            self.proj = coords;
                            self.dim = 1;
                        }
                    },
                    TrianglePointLocation::OnFace(_) => {},
                    TrianglePointLocation::OnSolid => {},
                }
                p
            },
        }
    }

    /// The closest point to the origin that `hull` reports for this simplex;
    /// the simplex stays as it is.
    pub fn project_origin(&self, hull: &HullProjection) -> (p: Point)
        requires
            self@.wf(),
            hull.fits(self@.dim),
        ensures
            p == self@.origin_projection(*hull),
    {
        match *hull {
            HullProjection::Vertex => self.vertices[0],
            HullProjection::Segment(p, _) => p,
            HullProjection::Triangle(p, _) => p,
        }
    }

    /// Whether `pt` is a vertex of the simplex, coordinate for coordinate.
    pub fn contains_point(&self, pt: &Point) -> (found: bool)
        requires
            self@.wf(),
        ensures
            found == self@.contains(*pt),
    {
        let mut i: usize = 0;
        while i < self.dim + 1
            invariant
                self@.wf(),
                i <= self.dim + 1,
                forall|j: int| 0 <= j < i ==> self@.vertices[j] != *pt,
                i <= 3,
            decreases self.dim + 1 - i,
        {
            if self.vertices[i] == *pt {
                return true;
            }
            i += 1;
        }
        false
    }

    /// The dimension of the simplex: one less than the number of its vertices.
    pub fn dimension(&self) -> (d: usize)
        ensures
            d == self@.dim,
    {
        self.dim
    }

    /// The dimension at the snapshot.
    pub fn prev_dimension(&self) -> (d: usize)
        ensures
            d == self@.prev_dim,
    {
        self.prev_dim
    }

    /// The largest squared distance of a vertex from the origin.
    pub fn max_sq_len(&self) -> (m: u128)
        requires
            self@.wf(),
        ensures
            m == self@.max_sq_len(),
    {
        let mut max_sq_len: u128 = 0;
        let mut i: usize = 0;
        while i < self.dim + 1
            invariant
                self@.wf(),
                i <= self.dim + 1,
                max_sq_len == self@.max_sq_len_upto(i as int),
            decreases self.dim + 1 - i,
        {
            let norm: u128 = self.vertices[i].norm_squared();
            if norm > max_sq_len {
                max_sq_len = norm;
            }
            i += 1;
        }
        max_sq_len
    }

    /// Replaces every vertex of the simplex by its image under `f`.
    pub fn modify_pnts<F: Fn(Point) -> Point>(&mut self, f: F)
        requires
            old(self)@.wf(),
            forall|p: Point| f.requires((p,)),
        ensures
            final(self)@.wf(),
            final(self)@.vertices.len() == 3,
            forall|j: int|
                0 <= j <= old(self)@.dim ==> f.ensures(
                    (old(self)@.vertices[j],),
                    #[trigger] final(self)@.vertices[j],
                ),
            forall|j: int|
                old(self)@.dim < j < 3 ==> #[trigger] final(self)@.vertices[j] == old(self)@.vertices[j],
            final(self)@ == (SimplexModel { vertices: final(self)@.vertices, ..old(self)@ }),
    {
        let mut i: usize = 0;
        while i < self.dim + 1
            invariant
                self@.wf(),
                i <= self.dim + 1,
                forall|p: Point| f.requires((p,)),
                forall|j: int|
                    0 <= j < i ==> f.ensures(
                        (old(self)@.vertices[j],),
                        #[trigger] self@.vertices[j],
                    ),
                forall|j: int| i <= j < 3 ==> #[trigger] self@.vertices[j] == old(self)@.vertices[j],
                self@ == (SimplexModel { vertices: self@.vertices, ..old(self)@ }),
            decreases self.dim + 1 - i,
        {
            let moved: Point = f(self.vertices[i]);
            self.vertices[i] = moved;
            i += 1;
        }
    }
}

/// A point that was offered once is turned down when it is offered again, and
/// the second offer leaves the dimension as the first one left it.
pub proof fn second_offer_is_turned_down<T>(s: SimplexModel<T>, pt: Point, first: T, second: T)
    requires
        s.wf(),
    ensures
        s.add_point(pt, first).wf(),
        s.add_point(pt, first).contains(pt),
        s.add_point(pt, first).add_point(pt, second).dim == s.add_point(pt, first).dim,
        s.add_point(pt, first).add_point(pt, second).vertices == s.add_point(pt, first).vertices,
{
}

/// Reducing on a report of the triangle's interior keeps the triangle; reducing
/// on a report of vertex `i` leaves that vertex alone, in slot 0 and at full
/// weight.
pub proof fn reduction_of_a_triangle<T>(s: SimplexModel<T>, p: Point, i: usize, w: [i64; 3])
    requires
        s.wf(),
        s.dim == 2,
        i < 3,
    ensures
        s.reduce(HullProjection::Triangle(p, TrianglePointLocation::OnFace(w))) == s,
        s.reduce(HullProjection::Triangle(p, TrianglePointLocation::OnVertex(i))).dim == 0,
        s.reduce(HullProjection::Triangle(p, TrianglePointLocation::OnVertex(i))).vertices[0]
            == s.vertices[i as int],
        s.reduce(HullProjection::Triangle(p, TrianglePointLocation::OnVertex(i))).proj[0] == ONE,
{
}

/// Projecting is repeatable across a reduction to a vertex: where the report
/// puts the closest point on a vertex, and names that vertex's own position,
/// the reduced simplex is that vertex alone, and projecting the origin on it
/// gives the same point again.
pub proof fn reduction_to_a_vertex_keeps_the_projection<T>(s: SimplexModel<T>, hull: HullProjection)
    requires
        s.wf(),
        hull.fits(s.dim),
        hull.on_vertex().is_some(),
        s.origin_projection(hull) == s.vertices[hull.on_vertex().unwrap()],
    ensures
        s.reduce(hull).wf(),
        s.reduce(hull).dim == 0,
        HullProjection::Vertex.fits(s.reduce(hull).dim),
        s.reduce(hull).origin_projection(HullProjection::Vertex) == s.origin_projection(hull),
        s.reduce(hull).reduce(HullProjection::Vertex) == s.reduce(hull),
{
    let r = s.reduce(hull);
    assert(r.proj.update(0, ONE) =~= r.proj);
}

} // verus!
