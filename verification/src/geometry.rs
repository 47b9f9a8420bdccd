//! Batched rectangle geometry in exact fixed-point coordinates.
//!
//! Rectangle descriptors are given in hundredths of a normalized device
//! coordinate. Every rectangle becomes one quad whose corners lie a quarter of
//! the half-extent away from the centre, so vertex positions are kept in units
//! of 1/400: four times finer than the input, which makes every corner exact.
//! All quads share one vertex list and one index list, so a single indexed
//! draw covers them all.

use vstd::prelude::*;

verus! {

/// Rectangle coordinates are counted in units of `1 / RECT_UNITS`.
pub const RECT_UNITS: i64 = 100;

/// The quad template reaches `1 / TEMPLATE_DIVISOR` of the half-extent.
pub const TEMPLATE_DIVISOR: i64 = 4;

/// Vertex coordinates are counted in units of `1 / VERTEX_UNITS`.
pub const VERTEX_UNITS: i64 = 400;

/// Vertices emitted per rectangle.
pub const VERTICES_PER_RECT: usize = 4;

/// Indices emitted per rectangle: two triangles.
pub const INDICES_PER_RECT: usize = 6;

/// The most rectangles one mesh can hold: with more, a vertex would lie
/// beyond what a 16-bit index can address.
pub const MAX_RECTS: usize = 16384;

/// Centre and half-extents of a rectangle, in units of `1 / RECT_UNITS`.
#[derive(Clone, Copy, Debug, PartialEq, Eq, Structural)]
pub struct Rect {
    pub cx: i32,
    pub cy: i32,
    pub hw: i32,
    pub hh: i32,
}

/// A 2D position, in units of `1 / VERTEX_UNITS`.
#[derive(Clone, Copy, Debug, PartialEq, Eq, Structural)]
pub struct Vertex {
    pub x: i64,
    pub y: i64,
}

/// Horizontal direction of template corner `k`: left for corners 0 and 3.
pub open spec fn corner_dx(k: int) -> int {
    if k == 1 || k == 2 {
        1
    } else {
        -1
    }
}

/// Vertical direction of template corner `k`: bottom for corners 0 and 1.
pub open spec fn corner_dy(k: int) -> int {
    if k == 2 || k == 3 {
        1
    } else {
        -1
    }
}

/// Corner `k` of the quad of `r`: the template corner scaled by the
/// half-extents and moved to the centre.
pub open spec fn corner(r: Rect, k: int) -> Vertex {
    Vertex {
        x: (TEMPLATE_DIVISOR * r.cx + corner_dx(k) * r.hw) as i64,
        y: (TEMPLATE_DIVISOR * r.cy + corner_dy(k) * r.hh) as i64,
    }
}

/// Entry `j` of the index template: the triangles (0, 1, 2) and (0, 2, 3),
/// both counter-clockwise.
pub open spec fn template_index(j: int) -> int {
    if j == 1 {
        1
    } else if j == 2 || j == 4 {
        2
    } else if j == 5 {
        3
    } else {
        0
    }
}

/// The vertex list of a batch: four corners per rectangle, in the order of
/// the rectangles.
pub open spec fn batch_vertices(rects: Seq<Rect>) -> Seq<Vertex> {
    Seq::new(4 * rects.len(), |p: int| corner(rects[p / 4], p % 4))
}

/// The index list of a batch of `count` rectangles: the index template once
/// per rectangle, moved past the vertices of the rectangles before it.
pub open spec fn batch_indices(count: nat) -> Seq<u16> {
    Seq::new(6 * count, |q: int| (4 * (q / 6) + template_index(q % 6)) as u16)
}

/// The bytes of `indices` with the low byte of each index first.
pub open spec fn little_endian_bytes(indices: Seq<u16>) -> Seq<u8> {
    Seq::new(
        2 * indices.len(),
        |b: int|
            if b % 2 == 0 {
                (indices[b / 2] % 256) as u8
            } else {
                (indices[b / 2] / 256) as u8
            },
    )
}

/// The bytes of `indices` with the high byte of each index first.
pub open spec fn big_endian_bytes(indices: Seq<u16>) -> Seq<u8> {
    Seq::new(
        2 * indices.len(),
        |b: int|
            if b % 2 == 0 {
                (indices[b / 2] / 256) as u8
            } else {
                (indices[b / 2] % 256) as u8
            },
    )
}

/// The rectangles of the scene that is drawn.
pub open spec fn scene() -> Seq<Rect> {
    seq![
        Rect { cx: -60i32, cy: -40i32, hw: 18, hh: 18 },
        Rect { cx: -10i32, cy: -20i32, hw: 12, hh: 22 },
        Rect { cx: 50, cy: -30i32, hw: 25, hh: 10 },
        Rect { cx: -20i32, cy: 50, hw: 15, hh: 15 },
        Rect { cx: 60, cy: 50, hw: 10, hh: 20 },
    ]
}

/// Twice the signed area of the triangle `a`, `b`, `c`: positive where the
/// three wind counter-clockwise.
pub open spec fn doubled_area(a: Vertex, b: Vertex, c: Vertex) -> int {
    (b.x - a.x) * (c.y - a.y) - (c.x - a.x) * (b.y - a.y)
}

/// What a mesh holds, as mathematical sequences.
pub ghost struct MeshView {
    pub vertices: Seq<Vertex>,
    pub indices: Seq<u16>,
}

impl MeshView {
    /// The indices group into whole triangles, every index names a vertex of
    /// the mesh, and the number of indices fits a draw call.
    pub open spec fn well_formed(self) -> bool {
        &&& self.indices.len() % 3 == 0
        &&& self.indices.len() <= u32::MAX
        &&& forall|q: int|
            0 <= q < self.indices.len() ==> (#[trigger] self.indices[q]) < self.vertices.len()
    }

    /// Number of triangles that the indices describe.
    pub open spec fn triangles(self) -> nat {
        self.indices.len() / 3
    }
}

/// One vertex list and one index list for a whole batch of rectangles.
/// A mesh is built once and never changes.
pub struct Mesh {
    vertices: Vec<Vertex>,
    indices: Vec<u16>,
}

impl View for Mesh {
    type V = MeshView;

    closed spec fn view(&self) -> MeshView {
        MeshView { vertices: self.vertices@, indices: self.indices@ }
    }
}

/// Computes corner `k` of the quad of `r`.
pub fn quad_corner(r: Rect, k: usize) -> (v: Vertex)
    requires
        k < 4,
    ensures
        v == corner(r, k as int),
        v.x == 4 * r.cx + corner_dx(k as int) * r.hw,
        v.y == 4 * r.cy + corner_dy(k as int) * r.hh,
{
    let cx: i64 = r.cx as i64;
    let cy: i64 = r.cy as i64;
    let hw: i64 = r.hw as i64;
    let hh: i64 = r.hh as i64;
    let x: i64 = if k == 1 || k == 2 { 4 * cx + hw } else { 4 * cx - hw };
    let y: i64 = if k == 2 || k == 3 { 4 * cy + hh } else { 4 * cy - hh };
    proof {
        lemma_corner_coordinates(r, k as int);
    }
    Vertex { x, y }
}

/// Entry `j` of the index template.
pub fn quad_index(j: usize) -> (t: u16)
    requires
        j < 6,
    ensures
        t == template_index(j as int),
        t < 4,
{
    if j == 1 {
        1
    } else if j == 2 || j == 4 {
        2
    } else if j == 5 {
        3
    } else {
        0
    }
}

/// The vertex list for `rects`.
pub fn build_vertices(rects: &[Rect]) -> (vertices: Vec<Vertex>)
    requires
        rects@.len() <= MAX_RECTS,
    ensures
        vertices@ == batch_vertices(rects@),
        vertices@.len() == 4 * rects@.len(),
        forall|i: int, k: int|
            0 <= i < rects@.len() && 0 <= k < 4 ==> #[trigger] vertices@[4 * i + k] == corner(
                rects@[i],
                k,
            ),
{
    let n: usize = rects.len();
    let mut vertices: Vec<Vertex> = Vec::with_capacity(n * VERTICES_PER_RECT);
    let mut i: usize = 0;
    while i < n
        invariant
            n == rects@.len(),
            n <= MAX_RECTS,
            i <= n,
            vertices@.len() == 4 * i,
            forall|p: int|
                0 <= p < 4 * i ==> #[trigger] vertices@[p] == corner(rects@[p / 4], p % 4),
        decreases n - i,
    {
        let r: Rect = rects[i];
        let mut k: usize = 0;
        while k < VERTICES_PER_RECT
            invariant
                i < n,
                n == rects@.len(),
                r == rects@[i as int],
                k <= 4,
                vertices@.len() == 4 * i + k,
                forall|p: int|
                    0 <= p < 4 * i + k ==> #[trigger] vertices@[p] == corner(rects@[p / 4], p % 4),
            decreases 4 - k,
        {
            vertices.push(quad_corner(r, k));
            k = k + 1;
        }
        i = i + 1;
    }
    assert(vertices@ =~= batch_vertices(rects@));
    assert forall|i: int, k: int| 0 <= i < rects@.len() && 0 <= k < 4 implies #[trigger] vertices@[4
        * i + k] == corner(rects@[i], k) by {
        let p = 4 * i + k;
        assert(p / 4 == i && p % 4 == k);
    }
    vertices
}

/// The index list for a batch of `count` rectangles.
pub fn build_indices(count: usize) -> (indices: Vec<u16>)
    requires
        count <= MAX_RECTS,
    ensures
        indices@ == batch_indices(count as nat),
        indices@.len() == 6 * count,
        forall|i: int, j: int|
            0 <= i < count && 0 <= j < 6 ==> #[trigger] indices@[6 * i + j] == 4 * i
                + template_index(j),
        forall|q: int| 0 <= q < indices@.len() ==> (#[trigger] indices@[q]) < 4 * count,
{
    let mut indices: Vec<u16> = Vec::with_capacity(count * INDICES_PER_RECT);
    let mut i: usize = 0;
    while i < count
        invariant
            count <= MAX_RECTS,
            i <= count,
            indices@.len() == 6 * i,
            forall|q: int|
                0 <= q < 6 * i ==> #[trigger] indices@[q] == 4 * (q / 6) + template_index(q % 6),
        decreases count - i,
    {
        let offset: u16 = (i * 4) as u16;
        let mut j: usize = 0;
        while j < INDICES_PER_RECT
            invariant
                i < count,
                count <= MAX_RECTS,
                offset == 4 * i,
                j <= 6,
                indices@.len() == 6 * i + j,
                forall|q: int|
                    0 <= q < 6 * i + j ==> #[trigger] indices@[q] == 4 * (q / 6) + template_index(
                        q % 6,
                    ),
            decreases 6 - j,
        {
            indices.push(quad_index(j) + offset);
            j = j + 1;
        }
        i = i + 1;
    }
    assert(indices@ =~= batch_indices(count as nat));
    assert forall|i: int, j: int| 0 <= i < count && 0 <= j < 6 implies #[trigger] indices@[6 * i
        + j] == 4 * i + template_index(j) by {
        let q = 6 * i + j;
        assert(q / 6 == i && q % 6 == j);
    }
    assert forall|q: int| 0 <= q < indices@.len() implies (#[trigger] indices@[q]) < 4 * count by {
        assert(q / 6 < count);
        assert(template_index(q % 6) < 4);
    }
    indices
}

/// The rectangles of the scene that is drawn: five of them, fixed.
pub fn scene_rects() -> (rects: Vec<Rect>)
    ensures
        rects@ == scene(),
        rects@.len() == 5,
{
    let mut rects: Vec<Rect> = Vec::with_capacity(5);
    rects.push(Rect { cx: -60, cy: -40, hw: 18, hh: 18 });
    rects.push(Rect { cx: -10, cy: -20, hw: 12, hh: 22 });
    rects.push(Rect { cx: 50, cy: -30, hw: 25, hh: 10 });
    rects.push(Rect { cx: -20, cy: 50, hw: 15, hh: 15 });
    rects.push(Rect { cx: 60, cy: 50, hw: 10, hh: 20 });
    assert(rects@ =~= scene());
    rects
}

/// The coordinates of a corner, written out: four times the centre, plus
/// the half-extent for the right and the top corners, minus it for the left
/// and the bottom ones.
pub proof fn lemma_corner_coordinates(r: Rect, k: int)
    ensures
        corner(r, k).x == 4 * r.cx + corner_dx(k) * r.hw,
        corner(r, k).y == 4 * r.cy + corner_dy(k) * r.hh,
        k == 1 || k == 2 ==> corner(r, k).x == 4 * r.cx + r.hw,
        !(k == 1 || k == 2) ==> corner(r, k).x == 4 * r.cx - r.hw,
        k == 2 || k == 3 ==> corner(r, k).y == 4 * r.cy + r.hh,
        !(k == 2 || k == 3) ==> corner(r, k).y == 4 * r.cy - r.hh,
{
    let w = r.hw as int;
    let h = r.hh as int;
    assert(TEMPLATE_DIVISOR == 4);
    assert(-0x8000_0000 <= r.cx < 0x8000_0000 && -0x8000_0000 <= w < 0x8000_0000);
    assert(-0x8000_0000 <= r.cy < 0x8000_0000 && -0x8000_0000 <= h < 0x8000_0000);
    if k == 1 || k == 2 {
        assert(corner_dx(k) == 1);
        assert(corner_dx(k) * w == w);
    } else {
        assert(corner_dx(k) == -1);
        assert(corner_dx(k) * w == -w);
    }
    if k == 2 || k == 3 {
        assert(corner_dy(k) == 1);
        assert(corner_dy(k) * h == h);
    } else {
        assert(corner_dy(k) == -1);
        assert(corner_dy(k) * h == -h);
    }
}

/// Every corner lies a quarter of the half-extent away from the centre:
/// with each coordinate divided by its unit, the corner is the centre plus or
/// minus `1 / TEMPLATE_DIVISOR` of the half-extent.
pub proof fn lemma_corner_lies_a_quarter_out(r: Rect, k: int)
    ensures
        VERTEX_UNITS == RECT_UNITS * TEMPLATE_DIVISOR,
        TEMPLATE_DIVISOR * (corner(r, k).x * RECT_UNITS - r.cx * VERTEX_UNITS) == corner_dx(k)
            * r.hw * VERTEX_UNITS,
        TEMPLATE_DIVISOR * (corner(r, k).y * RECT_UNITS - r.cy * VERTEX_UNITS) == corner_dy(k)
            * r.hh * VERTEX_UNITS,
{
    lemma_corner_coordinates(r, k);
    let x = corner(r, k).x as int;
    let y = corner(r, k).y as int;
    let dw = corner_dx(k) * r.hw;
    let dh = corner_dy(k) * r.hh;
    assert(TEMPLATE_DIVISOR == 4 && RECT_UNITS == 100 && VERTEX_UNITS == 400);
    assert(x == 4 * r.cx + dw);
    assert(y == 4 * r.cy + dh);
    assert(4 * (x * 100 - r.cx * 400) == dw * 400);
    assert(4 * (y * 100 - r.cy * 400) == dh * 400);
}

/// A batch is a well-formed mesh: for up to `MAX_RECTS` rectangles there are
/// four vertices and six indices per rectangle, the indices group into
/// whole triangles, and every index names a vertex of the batch.
pub proof fn lemma_batch_is_well_formed(rects: Seq<Rect>)
    requires
        rects.len() <= MAX_RECTS,
    ensures
        batch_vertices(rects).len() == 4 * rects.len(),
        batch_indices(rects.len()).len() == 6 * rects.len(),
        batch_indices(rects.len()).len() % 3 == 0,
        forall|q: int|
            0 <= q < 6 * rects.len() ==> (#[trigger] batch_indices(rects.len())[q]) < 4
                * rects.len(),
        (MeshView {
            vertices: batch_vertices(rects),
            indices: batch_indices(rects.len()),
        }).well_formed(),
{
    let indices = batch_indices(rects.len());
    assert forall|q: int| 0 <= q < 6 * rects.len() implies (#[trigger] indices[q]) < 4
        * rects.len() by {
        assert(q / 6 < rects.len());
        assert(template_index(q % 6) < 4);
    }
}

/// Both triangles of a quad wind counter-clockwise, and so face the viewer,
/// where the half-extents are positive: each has twice the signed area
/// `4 * hw * hh`.
pub proof fn lemma_quad_winds_counter_clockwise(r: Rect)
    requires
        r.hw > 0,
        r.hh > 0,
    ensures
        doubled_area(
            corner(r, template_index(0)),
            corner(r, template_index(1)),
            corner(r, template_index(2)),
        ) == 4 * r.hw * r.hh,
        doubled_area(
            corner(r, template_index(3)),
            corner(r, template_index(4)),
            corner(r, template_index(5)),
        ) == 4 * r.hw * r.hh,
        4 * r.hw * r.hh > 0,
{
    let w = r.hw as int;
    let h = r.hh as int;
    let a = corner(r, 0);
    let b = corner(r, 1);
    let c = corner(r, 2);
    let d = corner(r, 3);
    lemma_corner_coordinates(r, 0);
    lemma_corner_coordinates(r, 1);
    lemma_corner_coordinates(r, 2);
    lemma_corner_coordinates(r, 3);
    assert(b.x - a.x == 2 * w && b.y - a.y == 0);
    assert(c.x - a.x == 2 * w && c.y - a.y == 2 * h);
    assert(d.x - a.x == 0 && d.y - a.y == 2 * h);
    assert(doubled_area(a, b, c) == 4 * w * h) by (nonlinear_arith)
        requires
            doubled_area(a, b, c) == (b.x - a.x) * (c.y - a.y) - (c.x - a.x) * (b.y - a.y),
            b.x - a.x == 2 * w,
            b.y - a.y == 0,
            c.x - a.x == 2 * w,
            c.y - a.y == 2 * h,
    ;
    assert(doubled_area(a, c, d) == 4 * w * h) by (nonlinear_arith)
        requires
            doubled_area(a, c, d) == (c.x - a.x) * (d.y - a.y) - (d.x - a.x) * (c.y - a.y),
            c.x - a.x == 2 * w,
            c.y - a.y == 2 * h,
            d.x - a.x == 0,
            d.y - a.y == 2 * h,
    ;
    assert(4 * w * h > 0) by (nonlinear_arith)
        requires
            w > 0,
            h > 0,
    ;
}

/// `bytemuck::cast_slice` from 16-bit indices to bytes: the same memory read
/// byte by byte, so twice as many bytes as indices, each index in the byte
/// order of the machine. Which of the two orders that is, is left open.
#[verifier::external_body]
fn cast_indices(indices: &[u16]) -> (bytes: &[u8])
    ensures
        bytes@ == little_endian_bytes(indices@) || bytes@ == big_endian_bytes(indices@),
{
    bytemuck::cast_slice(indices)
}

impl Mesh {
    #[verifier::type_invariant]
    spec fn valid(self) -> bool {
        self@.well_formed()
    }

    /// Builds the batched mesh for `rects`.
    ///
    /// Rectangle `i` gives the vertices `4 * i` to `4 * i + 3`, its four
    /// corners, and the indices `6 * i` to `6 * i + 5`, the index template
    /// moved by `4 * i`.
    pub fn build(rects: &[Rect]) -> (mesh: Mesh)
        requires
            rects@.len() <= MAX_RECTS,
        ensures
            mesh@.vertices == batch_vertices(rects@),
            mesh@.indices == batch_indices(rects@.len()),
            mesh@.vertices.len() == 4 * rects@.len(),
            mesh@.indices.len() == 6 * rects@.len(),
            mesh@.indices.len() % 3 == 0,
            mesh@.triangles() == 2 * rects@.len(),
            forall|q: int|
                0 <= q < mesh@.indices.len() ==> (#[trigger] mesh@.indices[q]) < 4 * rects@.len(),
            forall|i: int, k: int|
                0 <= i < rects@.len() && 0 <= k < 4 ==> #[trigger] mesh@.vertices[4 * i + k]
                    == corner(rects@[i], k),
            forall|i: int, j: int|
                0 <= i < rects@.len() && 0 <= j < 6 ==> #[trigger] mesh@.indices[6 * i + j] == 4
                    * i + template_index(j),
            mesh@.well_formed(),
    {
        let vertices = build_vertices(rects);
        let indices = build_indices(rects.len());
        Mesh { vertices, indices }
    }

    /// The vertices, in batch order.
    pub fn vertices(&self) -> (vertices: &[Vertex])
        ensures
            vertices@ == self@.vertices,
    {
        self.vertices.as_slice()
    }

    /// The indices, three per triangle.
    pub fn indices(&self) -> (indices: &[u16])
        ensures
            indices@ == self@.indices,
            self@.well_formed(),
    {
        proof {
            use_type_invariant(self);
        }
        self.indices.as_slice()
    }

    /// Number of vertices.
    pub fn vertex_count(&self) -> (count: usize)
        ensures
            count == self@.vertices.len(),
    {
        self.vertices.len()
    }

    /// Number of indices: the range that one draw call spans.
    pub fn index_count(&self) -> (count: u32)
        ensures
            count == self@.indices.len(),
            count % 3 == 0,
    {
        proof {
            use_type_invariant(self);
        }
        self.indices.len() as u32
    }

    /// Number of triangles.
    pub fn triangle_count(&self) -> (count: u32)
        ensures
            count == self@.triangles(),
            3 * count == self@.indices.len(),
    {
        proof {
            use_type_invariant(self);
        }
        (self.indices.len() / 3) as u32
    }

    /// The index list as the bytes of an index buffer: two bytes per index,
    /// in the byte order of the machine.
    pub fn index_bytes(&self) -> (bytes: &[u8])
        ensures
            bytes@.len() == 2 * self@.indices.len(),
            bytes@ == little_endian_bytes(self@.indices) || bytes@ == big_endian_bytes(
                self@.indices,
            ),
            forall|q: int|
                0 <= q < self@.indices.len() ==> {
                    ||| (#[trigger] self@.indices[q]) == bytes@[2 * q] + 256 * bytes@[2 * q + 1]
                    ||| self@.indices[q] == 256 * bytes@[2 * q] + bytes@[2 * q + 1]
                },
    {
        let bytes = cast_indices(self.indices.as_slice());
        proof {
            assert forall|q: int| 0 <= q < self@.indices.len() implies {
                ||| (#[trigger] self@.indices[q]) == bytes@[2 * q] + 256 * bytes@[2 * q + 1]
                ||| self@.indices[q] == 256 * bytes@[2 * q] + bytes@[2 * q + 1]
            } by {
                let v = self@.indices[q];
                assert((2 * q) / 2 == q && (2 * q) % 2 == 0);
                assert((2 * q + 1) / 2 == q && (2 * q + 1) % 2 == 1);
                assert(v == (v % 256) + 256 * (v / 256));
            }
        }
        bytes
    }
}

} // verus!
