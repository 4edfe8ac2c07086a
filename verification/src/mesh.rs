//! Meshes: lists of shapes with an axis-aligned bounding box, and the
//! builders for the primitive-based geometry (quads, blocks, grids).

use vstd::prelude::*;
use crate::color::{grey, Color, FX_128, FX_255};
use crate::fx::{
    interpolate_lin, interpolate_lin_spec, fx_add, fx_div, fx_div_spec, fx_mul, fx_mul_spec,
    fx_neg, fx_sub, max2_spec, min2_spec, FX_HALF, FX_LIM, FX_LIM_NEG, FX_ONE,
};
use crate::mat::{mat3_apply_spec, Mat3};
use crate::shape::{plain_vertex_spec, Shape, Vertex};
use crate::vec::{fxv, v3_scale_spec, v3_translate_spec, Vec3};

verus! {

/// An axis-aligned bounding box; `created` records whether it was computed
/// from a mesh rather than given.
#[derive(Clone, Copy, PartialEq, Eq, Structural, Debug)]
pub struct BoundingBox {
    pub min: Vec3,
    pub max: Vec3,
    pub created: bool,
}

/// A list of shapes with its bounding box.
#[derive(Clone, Debug)]
pub struct Mesh {
    pub bbox: BoundingBox,
    pub shapes: Vec<Shape>,
}

/// The empty bounding box: its minimum saturated high and its maximum
/// saturated low, so that any vertex extends it.
pub open spec fn bbox_empty_spec() -> BoundingBox {
    BoundingBox {
        min: Vec3 { x: FX_LIM, y: FX_LIM, z: FX_LIM },
        max: Vec3 { x: FX_LIM_NEG, y: FX_LIM_NEG, z: FX_LIM_NEG },
        created: false,
    }
}

impl BoundingBox {
    pub fn new(min: &Vec3, max: &Vec3) -> (b: BoundingBox)
        ensures
            b == (BoundingBox { min: *min, max: *max, created: false }),
    {
        BoundingBox { min: min.clone(), max: max.clone(), created: false }
    }

    pub fn new_empty() -> (b: BoundingBox)
        ensures
            b == bbox_empty_spec(),
    {
        BoundingBox {
            min: Vec3 { x: FX_LIM, y: FX_LIM, z: FX_LIM },
            max: Vec3 { x: -FX_LIM, y: -FX_LIM, z: -FX_LIM },
            created: false,
        }
    }

    pub fn set(&mut self, min: &Vec3, max: &Vec3)
        ensures
            *final(self) == (BoundingBox { min: *min, max: *max, created: false }),
    {
        self.min.set_from(min);
        self.max.set_from(max);
        self.created = false;
    }

    pub fn set_from(&mut self, bbox: &BoundingBox)
        ensures
            *final(self) == *bbox,
    {
        self.min.set_from(&bbox.min);
        self.max.set_from(&bbox.max);
        self.created = bbox.created;
    }

    pub fn set_to(&self, bbox: &mut BoundingBox)
        ensures
            *final(bbox) == *self,
    {
        bbox.min.set_from(&self.min);
        bbox.max.set_from(&self.max);
        bbox.created = self.created;
    }

    pub fn clear(&mut self)
        ensures
            *final(self) == bbox_empty_spec(),
    {
        self.min.set(FX_LIM, FX_LIM, FX_LIM);
        self.max.set(-FX_LIM, -FX_LIM, -FX_LIM);
        self.created = false;
    }
}

impl Mesh {
    /// An empty mesh with room for `cnt_mesh` shapes.
    pub fn new(cnt_mesh: usize) -> (m: Mesh)
        ensures
            m.bbox == bbox_empty_spec(),
            m.shapes@.len() == 0,
    {
        Mesh { bbox: BoundingBox::new_empty(), shapes: Vec::with_capacity(cnt_mesh) }
    }

    pub fn new_init(bbox: &BoundingBox, shapes: &Vec<Shape>) -> (m: Mesh)
        ensures
            m.bbox == *bbox,
            m.shapes@.len() == shapes@.len(),
            forall|i: int|
                0 <= i < shapes@.len() ==> #[trigger] m.shapes@[i].tex_id == shapes@[i].tex_id
                    && m.shapes@[i].vertices@ == shapes@[i].vertices@,
    {
        Mesh { bbox: bbox.clone(), shapes: crate::shape::clone_shapes(shapes) }
    }

    /// Apply a 3x3 matrix to every vertex of every shape.
    pub fn transform(&mut self, mat: &Mat3)
        ensures
            final(self).bbox == old(self).bbox,
            final(self).shapes@.len() == old(self).shapes@.len(),
            forall|i: int, j: int|
                0 <= i < old(self).shapes@.len() && 0 <= j < old(self).shapes@[i].vertices@.len()
                    ==> #[trigger] final(self).shapes@[i].vertices@[j] == (Vertex {
                    vec: mat3_apply_spec(*mat, old(self).shapes@[i].vertices@[j].vec),
                    ..old(self).shapes@[i].vertices@[j]
                }),
            forall|i: int|
                0 <= i < old(self).shapes@.len() ==> #[trigger] final(self).shapes@[i].tex_id == old(self).shapes@[i].tex_id && final(self).shapes@[i].vertices@.len() == old(self).shapes@[i].vertices@.len(),
    {
        let n = self.shapes.len();
        let mut i: usize = 0;
        while i < n
            invariant
                n == self.shapes@.len(),
                n == old(self).shapes@.len(),
                self.bbox == old(self).bbox,
                i <= n,
                forall|k: int, j: int|
                    0 <= k < i && 0 <= j < old(self).shapes@[k].vertices@.len()
                        ==> #[trigger] self.shapes@[k].vertices@[j] == (Vertex {
                        vec: mat3_apply_spec(*mat, old(self).shapes@[k].vertices@[j].vec),
                        ..old(self).shapes@[k].vertices@[j]
                    }),
                forall|k: int|
                    0 <= k < i ==> #[trigger] self.shapes@[k].tex_id == old(self).shapes@[k].tex_id
                        && self.shapes@[k].vertices@.len() == old(self).shapes@[k].vertices@.len(),
                forall|k: int| i <= k < n ==> self.shapes@[k] == old(self).shapes@[k],
            decreases n - i,
        {
            let ghost pre = self.shapes@;
            let mut s = self.shapes.remove(i);
            s.transform(mat);
            self.shapes.insert(i, s);
            proof {
                assert(self.shapes@ =~= pre.update(i as int, s));
            }
            i = i + 1;
        }
    }

    /// Scale every vertex of every shape componentwise.
    pub fn scale(&mut self, x: i64, y: i64, z: i64)
        ensures
            final(self).bbox == old(self).bbox,
            final(self).shapes@.len() == old(self).shapes@.len(),
            forall|i: int, j: int|
                0 <= i < old(self).shapes@.len() && 0 <= j < old(self).shapes@[i].vertices@.len()
                    ==> #[trigger] final(self).shapes@[i].vertices@[j] == (Vertex {
                    vec: v3_scale_spec(old(self).shapes@[i].vertices@[j].vec, x, y, z),
                    ..old(self).shapes@[i].vertices@[j]
                }),
            forall|i: int|
                0 <= i < old(self).shapes@.len() ==> #[trigger] final(self).shapes@[i].tex_id == old(self).shapes@[i].tex_id && final(self).shapes@[i].vertices@.len() == old(self).shapes@[i].vertices@.len(),
    {
        let n = self.shapes.len();
        let mut i: usize = 0;
        while i < n
            invariant
                n == self.shapes@.len(),
                n == old(self).shapes@.len(),
                self.bbox == old(self).bbox,
                i <= n,
                forall|k: int, j: int|
                    0 <= k < i && 0 <= j < old(self).shapes@[k].vertices@.len()
                        ==> #[trigger] self.shapes@[k].vertices@[j] == (Vertex {
                        vec: v3_scale_spec(old(self).shapes@[k].vertices@[j].vec, x, y, z),
                        ..old(self).shapes@[k].vertices@[j]
                    }),
                forall|k: int|
                    0 <= k < i ==> #[trigger] self.shapes@[k].tex_id == old(self).shapes@[k].tex_id
                        && self.shapes@[k].vertices@.len() == old(self).shapes@[k].vertices@.len(),
                forall|k: int| i <= k < n ==> self.shapes@[k] == old(self).shapes@[k],
            decreases n - i,
        {
            let ghost pre = self.shapes@;
            let mut s = self.shapes.remove(i);
            s.scale(x, y, z);
            self.shapes.insert(i, s);
            proof {
                assert(self.shapes@ =~= pre.update(i as int, s));
            }
            i = i + 1;
        }
    }

    /// Translate every vertex of every shape.
    pub fn translate(&mut self, x: i64, y: i64, z: i64)
        ensures
            final(self).bbox == old(self).bbox,
            final(self).shapes@.len() == old(self).shapes@.len(),
            forall|i: int, j: int|
                0 <= i < old(self).shapes@.len() && 0 <= j < old(self).shapes@[i].vertices@.len()
                    ==> #[trigger] final(self).shapes@[i].vertices@[j] == (Vertex {
                    vec: v3_translate_spec(old(self).shapes@[i].vertices@[j].vec, x, y, z),
                    ..old(self).shapes@[i].vertices@[j]
                }),
            forall|i: int|
                0 <= i < old(self).shapes@.len() ==> #[trigger] final(self).shapes@[i].tex_id == old(self).shapes@[i].tex_id && final(self).shapes@[i].vertices@.len() == old(self).shapes@[i].vertices@.len(),
    {
        let n = self.shapes.len();
        let mut i: usize = 0;
        while i < n
            invariant
                n == self.shapes@.len(),
                n == old(self).shapes@.len(),
                self.bbox == old(self).bbox,
                i <= n,
                forall|k: int, j: int|
                    0 <= k < i && 0 <= j < old(self).shapes@[k].vertices@.len()
                        ==> #[trigger] self.shapes@[k].vertices@[j] == (Vertex {
                        vec: v3_translate_spec(old(self).shapes@[k].vertices@[j].vec, x, y, z),
                        ..old(self).shapes@[k].vertices@[j]
                    }),
                forall|k: int|
                    0 <= k < i ==> #[trigger] self.shapes@[k].tex_id == old(self).shapes@[k].tex_id
                        && self.shapes@[k].vertices@.len() == old(self).shapes@[k].vertices@.len(),
                forall|k: int| i <= k < n ==> self.shapes@[k] == old(self).shapes@[k],
            decreases n - i,
        {
            let ghost pre = self.shapes@;
            let mut s = self.shapes.remove(i);
            s.translate(x, y, z);
            self.shapes.insert(i, s);
            proof {
                assert(self.shapes@ =~= pre.update(i as int, s));
            }
            i = i + 1;
        }
    }
}

/// A bounding box widened to take one more vertex position in.
pub open spec fn bbox_take_spec(b: BoundingBox, v: Vec3) -> BoundingBox {
    BoundingBox {
        min: Vec3 {
            x: min2_spec(b.min.x, v.x),
            y: min2_spec(b.min.y, v.y),
            z: min2_spec(b.min.z, v.z),
        },
        max: Vec3 {
            x: max2_spec(b.max.x, v.x),
            y: max2_spec(b.max.y, v.y),
            z: max2_spec(b.max.z, v.z),
        },
        created: b.created,
    }
}

/// A bounding box widened over the first `n` vertices of a list.
pub open spec fn bbox_fold_verts_spec(b: BoundingBox, vs: Seq<Vertex>, n: int) -> BoundingBox
    decreases n,
{
    if n <= 0 {
        b
    } else {
        bbox_take_spec(bbox_fold_verts_spec(b, vs, n - 1), vs[n - 1].vec)
    }
}

/// A bounding box widened over every vertex of the first `n` shapes.
pub open spec fn bbox_fold_shapes_spec(b: BoundingBox, shapes: Seq<Shape>, n: int) -> BoundingBox
    decreases n,
{
    if n <= 0 {
        b
    } else {
        let prev = bbox_fold_shapes_spec(b, shapes, n - 1);
        bbox_fold_verts_spec(prev, shapes[n - 1].vertices@, shapes[n - 1].vertices@.len() as int)
    }
}

impl Mesh {
    /// Widen the bounding box over every vertex of every shape and mark it
    /// computed.
    pub fn compute_bbox(&mut self)
        ensures
            final(self).shapes@ == old(self).shapes@,
            final(self).bbox == (BoundingBox {
                created: true,
                ..bbox_fold_shapes_spec(
                    old(self).bbox,
                    old(self).shapes@,
                    old(self).shapes@.len() as int,
                )
            }),
    {
        let n = self.shapes.len();
        let mut i: usize = 0;
        while i < n
            invariant
                n == self.shapes@.len(),
                self.shapes@ == old(self).shapes@,
                i <= n,
                self.bbox == bbox_fold_shapes_spec(old(self).bbox, old(self).shapes@, i as int),
            decreases n - i,
        {
            let m = self.shapes[i].vertices.len();
            let ghost row_start = self.bbox;
            let mut j: usize = 0;
            while j < m
                invariant
                    n == self.shapes@.len(),
                    self.shapes@ == old(self).shapes@,
                    i < n,
                    m == self.shapes@[i as int].vertices@.len(),
                    j <= m,
                    self.bbox == bbox_fold_verts_spec(
                        row_start,
                        self.shapes@[i as int].vertices@,
                        j as int,
                    ),
                decreases m - j,
            {
                let v = self.shapes[i].vertices[j].vec;
                let b = self.bbox;
                self.bbox = BoundingBox {
                    min: Vec3 {
                        x: crate::fx::min2(b.min.x, v.x),
                        y: crate::fx::min2(b.min.y, v.y),
                        z: crate::fx::min2(b.min.z, v.z),
                    },
                    max: Vec3 {
                        x: crate::fx::max2(b.max.x, v.x),
                        y: crate::fx::max2(b.max.y, v.y),
                        z: crate::fx::max2(b.max.z, v.z),
                    },
                    created: b.created,
                };
                j = j + 1;
            }
            i = i + 1;
        }
        self.bbox.created = true;
    }

    /// Color every vertex by its position inside the bounding box: each
    /// channel remaps the matching coordinate from the box extent onto the
    /// unit range.
    pub fn color_by_bbox(&mut self)
        ensures
            final(self).bbox == old(self).bbox,
            final(self).shapes@.len() == old(self).shapes@.len(),
            forall|i: int, j: int|
                0 <= i < old(self).shapes@.len() && 0 <= j < old(self).shapes@[i].vertices@.len()
                    ==> #[trigger] final(self).shapes@[i].vertices@[j] == (Vertex {
                    color: bbox_color_spec(old(self).bbox, old(self).shapes@[i].vertices@[j].vec),
                    ..old(self).shapes@[i].vertices@[j]
                }),
            forall|i: int|
                0 <= i < old(self).shapes@.len() ==> #[trigger] final(self).shapes@[i].tex_id
                    == old(self).shapes@[i].tex_id && final(self).shapes@[i].vertices@.len() == old(
                    self,
                ).shapes@[i].vertices@.len(),
    {
        let bbox = self.bbox;
        let n = self.shapes.len();
        let mut i: usize = 0;
        while i < n
            invariant
                n == self.shapes@.len(),
                n == old(self).shapes@.len(),
                bbox == old(self).bbox,
                self.bbox == old(self).bbox,
                i <= n,
                forall|k: int, j: int|
                    0 <= k < i && 0 <= j < old(self).shapes@[k].vertices@.len()
                        ==> #[trigger] self.shapes@[k].vertices@[j] == (Vertex {
                        color: bbox_color_spec(old(self).bbox, old(self).shapes@[k].vertices@[j].vec),
                        ..old(self).shapes@[k].vertices@[j]
                    }),
                forall|k: int|
                    0 <= k < i ==> #[trigger] self.shapes@[k].tex_id == old(self).shapes@[k].tex_id
                        && self.shapes@[k].vertices@.len() == old(self).shapes@[k].vertices@.len(),
                forall|k: int| i <= k < n ==> self.shapes@[k] == old(self).shapes@[k],
            decreases n - i,
        {
            let ghost pre = self.shapes@;
            let mut s = self.shapes.remove(i);
            let m = s.vertices.len();
            let ghost s0 = s;
            let mut j: usize = 0;
            while j < m
                invariant
                    m == s.vertices@.len(),
                    m == s0.vertices@.len(),
                    s.tex_id == s0.tex_id,
                    j <= m,
                    forall|l: int|
                        0 <= l < j ==> #[trigger] s.vertices@[l] == (Vertex {
                            color: bbox_color_spec(bbox, s0.vertices@[l].vec),
                            ..s0.vertices@[l]
                        }),
                    forall|l: int| j <= l < m ==> s.vertices@[l] == s0.vertices@[l],
                decreases m - j,
            {
                let mut v = s.vertices[j];
                v.color = Color {
                    r: interpolate_lin(v.vec.x, bbox.min.x, 0, bbox.max.x, FX_ONE),
                    g: interpolate_lin(v.vec.y, bbox.min.y, 0, bbox.max.y, FX_ONE),
                    b: interpolate_lin(v.vec.z, bbox.min.z, 0, bbox.max.z, FX_ONE),
                };
                s.vertices.set(j, v);
                j = j + 1;
            }
            self.shapes.insert(i, s);
            proof {
                assert(self.shapes@ =~= pre.update(i as int, s));
            }
            i = i + 1;
        }
    }
}

/// The color a bounding box gives a vertex position: each channel the
/// coordinate remapped from the box extent onto the unit range.
pub open spec fn bbox_color_spec(b: BoundingBox, v: Vec3) -> Color {
    Color {
        r: fxv(interpolate_lin_spec(v.x as int, b.min.x as int, 0, b.max.x as int, FX_ONE as int)),
        g: fxv(interpolate_lin_spec(v.y as int, b.min.y as int, 0, b.max.y as int, FX_ONE as int)),
        b: fxv(interpolate_lin_spec(v.z as int, b.min.z as int, 0, b.max.z as int, FX_ONE as int)),
    }
}

/// The ready-made mesh constructors: single primitives, quads, subdivided
/// blocks, and the line and point grids.
pub struct MeshBuilder {}

impl MeshBuilder {
    /// A mesh of one point shape.
    pub fn point(p: &Vec3) -> (m: Mesh)
        ensures
            m.shapes@.len() == 1,
            m.shapes@[0].tex_id == -1,
            m.shapes@[0].vertices@.len() == 1,
            m.shapes@[0].vertices@[0] == plain_vertex_spec(
                *p,
                Color { r: FX_255, g: 0i64, b: 0i64 },
            ),
    {
        let mut point: Mesh = Mesh::new(1);
        point.shapes.push(Shape::new_point(p));
        point
    }

    /// A mesh of one line shape.
    pub fn line(p: &Vec3, p2: &Vec3) -> (m: Mesh)
        ensures
            m.shapes@.len() == 1,
            m.shapes@[0].tex_id == -1,
            m.shapes@[0].vertices@.len() == 2,
            m.shapes@[0].vertices@[0] == plain_vertex_spec(
                *p,
                Color { r: FX_255, g: 0i64, b: 0i64 },
            ),
            m.shapes@[0].vertices@[1] == plain_vertex_spec(
                *p2,
                Color { r: 0i64, g: FX_255, b: 0i64 },
            ),
    {
        let mut line: Mesh = Mesh::new(1);
        line.shapes.push(Shape::new_line(p, p2));
        line
    }

    /// A mesh of one triangle shape.
    pub fn triangle(p: &Vec3, p2: &Vec3, p3: &Vec3) -> (m: Mesh)
        ensures
            m.shapes@.len() == 1,
            m.shapes@[0].tex_id == -1,
            m.shapes@[0].vertices@.len() == 3,
            m.shapes@[0].vertices@[0] == plain_vertex_spec(
                *p,
                Color { r: FX_255, g: 0i64, b: 0i64 },
            ),
            m.shapes@[0].vertices@[1] == plain_vertex_spec(
                *p2,
                Color { r: FX_255, g: FX_255, b: FX_255 },
            ),
            m.shapes@[0].vertices@[2] == plain_vertex_spec(
                *p3,
                Color { r: 0i64, g: 0i64, b: FX_255 },
            ),
    {
        let mut triangle: Mesh = Mesh::new(1);
        triangle.shapes.push(Shape::new_triangle(p, p2, p3));
        triangle
    }

    /// A quad from two triangles over its corners; the second triangle's far
    /// corner is tinted with the unit color.
    pub fn quad(lb: &Vec3, rb: &Vec3, lt: &Vec3, rt: &Vec3) -> (m: Mesh)
        ensures
            m.shapes@.len() == 2,
            m.shapes@[0].tex_id == -1 && m.shapes@[1].tex_id == -1,
            m.shapes@[0].vertices@.len() == 3 && m.shapes@[1].vertices@.len() == 3,
            m.shapes@[0].vertices@[0].vec == *lb,
            m.shapes@[0].vertices@[1].vec == *rb,
            m.shapes@[0].vertices@[2].vec == *lt,
            m.shapes@[1].vertices@[0].vec == *lt,
            m.shapes@[1].vertices@[1].vec == *rb,
            m.shapes@[1].vertices@[2].vec == *rt,
            m.shapes@[1].vertices@[2].color == (Color { r: FX_ONE, g: FX_ONE, b: FX_ONE }),
    {
        let mut quad: Mesh = Mesh::new(2);
        quad.shapes.push(Shape::new_triangle(lb, rb, lt));
        quad.shapes.push(Shape::new_triangle(lt, rb, rt));
        let mut second = quad.shapes.remove(1);
        let mut far = second.vertices[2];
        far.color.set_from_rgb(FX_ONE, FX_ONE, FX_ONE);
        second.vertices.set(2, far);
        quad.shapes.insert(1, second);
        proof {
            assert(quad.shapes@.len() == 2);
        }
        quad
    }

    /// A cube: a block of equal extents with one segment per side.
    pub fn cube(center: &Vec3, sidelen: i64) -> (m: Mesh)
        ensures
            m.shapes@.len() == 12,
            forall|i: int|
                0 <= i < m.shapes@.len() ==> #[trigger] m.shapes@[i].tex_id == -1
                    && m.shapes@[i].vertices@.len() == 3,
    {
        let m = MeshBuilder::block(center, sidelen, sidelen, sidelen, 1, 1, 1);
        proof {
            assert(1usize * 1usize * 4 + 1usize * 1usize * 4 + 1usize * 1usize * 4 == 12)
                by (nonlinear_arith);
        }
        m
    }

    /// A box of the given extents around `center`, each face split into the
    /// given number of segments per axis, every face a fan of triangles
    /// (four per segment cell, two on each of the opposing faces).
    pub fn block(
        center: &Vec3,
        width: i64,
        height: i64,
        depth: i64,
        cntx: usize,
        cnty: usize,
        cntz: usize,
    ) -> (m: Mesh)
        requires
            1 <= cntx <= 0x1000,
            1 <= cnty <= 0x1000,
            1 <= cntz <= 0x1000,
        ensures
            m.shapes@.len() == cntx * cnty * 4 + cnty * cntz * 4 + cntz * cntx * 4,
            forall|i: int|
                0 <= i < m.shapes@.len() ==> #[trigger] m.shapes@[i].tex_id == -1
                    && m.shapes@[i].vertices@.len() == 3,
    {
        let mut block = Mesh::new(0);
        let hw: i64 = fx_mul(width, FX_HALF);
        let hh: i64 = fx_mul(height, FX_HALF);
        let hd: i64 = fx_mul(depth, FX_HALF);
        let wseg: i64 = fx_div(width, fx_of_count_pub(cntx));
        let hseg: i64 = fx_div(height, fx_of_count_pub(cnty));
        let dseg: i64 = fx_div(depth, fx_of_count_pub(cntz));

        // front and back faces
        let startx = fx_sub(center.x, hw);
        let starty = fx_sub(center.y, hh);
        let startz_front = fx_add(center.z, hd);
        let startz_back = fx_sub(startz_front, depth);
        let mut cury: usize = 0;
        while cury < cnty
            invariant
                cury <= cnty,
                cntx >= 1,
                cntx <= 0x1000 && cnty <= 0x1000,
                block.shapes@.len() == cury * (cntx * 4),
                forall|i: int|
                    0 <= i < block.shapes@.len() ==> #[trigger] block.shapes@[i].tex_id == -1
                        && block.shapes@[i].vertices@.len() == 3,
            decreases cnty - cury,
        {
            let mut curx: usize = 0;
            while curx < cntx
                invariant
                    curx <= cntx,
                    cntx >= 1,
                    cntx <= 0x1000 && cnty <= 0x1000 && cury < cnty,
                    block.shapes@.len() == cury * (cntx * 4) + curx * 4,
                    forall|i: int|
                        0 <= i < block.shapes@.len() ==> #[trigger] block.shapes@[i].tex_id == -1
                            && block.shapes@[i].vertices@.len() == 3,
                decreases cntx - curx,
            {
                let x0 = fx_add(startx, fx_mul(fx_of_count_pub(curx), wseg));
                let x1 = fx_add(startx, fx_mul(fx_of_count_pub(curx + 1), wseg));
                let y0 = fx_add(starty, fx_mul(fx_of_count_pub(cury), hseg));
                let y1 = fx_add(starty, fx_mul(fx_of_count_pub(cury + 1), hseg));
                let p1 = Vec3 { x: x0, y: y0, z: startz_front };
                let p2 = Vec3 { x: x1, y: y0, z: startz_front };
                let p3 = Vec3 { x: x0, y: y1, z: startz_front };
                let p4 = Vec3 { x: x1, y: y1, z: startz_front };
                block.shapes.push(Shape::new_triangle(&p1, &p2, &p3));
                block.shapes.push(Shape::new_triangle(&p3, &p2, &p4));
                let q1 = Vec3 { x: x0, y: y0, z: startz_back };
                let q2 = Vec3 { x: x1, y: y0, z: startz_back };
                let q3 = Vec3 { x: x0, y: y1, z: startz_back };
                let q4 = Vec3 { x: x1, y: y1, z: startz_back };
                block.shapes.push(Shape::new_triangle(&q2, &q1, &q4));
                block.shapes.push(Shape::new_triangle(&q4, &q1, &q3));
                curx = curx + 1;
            }
            cury = cury + 1;
            proof {
                assert((cury - 1) * (cntx * 4) + cntx * 4 == cury * (cntx * 4))
                    by (nonlinear_arith);
            }
        }
        let ghost front_total = (cnty * (cntx * 4)) as int;

        // left and right faces
        let startz = fx_sub(center.z, hd);
        let startx_right = fx_add(startx, width);
        let mut cury2: usize = 0;
        while cury2 < cnty
            invariant
                cury2 <= cnty,
                cntz >= 1,
                cntz <= 0x1000 && cnty <= 0x1000,
                front_total == cnty * (cntx * 4),
                block.shapes@.len() == front_total + cury2 * (cntz * 4),
                forall|i: int|
                    0 <= i < block.shapes@.len() ==> #[trigger] block.shapes@[i].tex_id == -1
                        && block.shapes@[i].vertices@.len() == 3,
            decreases cnty - cury2,
        {
            let mut curz: usize = 0;
            while curz < cntz
                invariant
                    curz <= cntz,
                    cntz >= 1,
                    cntz <= 0x1000 && cnty <= 0x1000 && cury2 < cnty,
                    front_total == cnty * (cntx * 4),
                    block.shapes@.len() == front_total + cury2 * (cntz * 4) + curz * 4,
                    forall|i: int|
                        0 <= i < block.shapes@.len() ==> #[trigger] block.shapes@[i].tex_id == -1
                            && block.shapes@[i].vertices@.len() == 3,
                decreases cntz - curz,
            {
                let y0 = fx_add(starty, fx_mul(fx_of_count_pub(cury2), hseg));
                let y1 = fx_add(starty, fx_mul(fx_of_count_pub(cury2 + 1), hseg));
                let z0 = fx_add(startz, fx_mul(fx_of_count_pub(curz), dseg));
                let z1 = fx_add(startz, fx_mul(fx_of_count_pub(curz + 1), dseg));
                let p1 = Vec3 { x: startx, y: y0, z: z0 };
                let p2 = Vec3 { x: startx, y: y0, z: z1 };
                let p3 = Vec3 { x: startx, y: y1, z: z0 };
                let p4 = Vec3 { x: startx, y: y1, z: z1 };
                block.shapes.push(Shape::new_triangle(&p1, &p2, &p3));
                block.shapes.push(Shape::new_triangle(&p3, &p2, &p4));
                let q1 = Vec3 { x: startx_right, y: y0, z: z0 };
                let q2 = Vec3 { x: startx_right, y: y0, z: z1 };
                let q3 = Vec3 { x: startx_right, y: y1, z: z0 };
                let q4 = Vec3 { x: startx_right, y: y1, z: z1 };
                block.shapes.push(Shape::new_triangle(&q2, &q1, &q4));
                block.shapes.push(Shape::new_triangle(&q4, &q1, &q3));
                curz = curz + 1;
            }
            cury2 = cury2 + 1;
            proof {
                assert((cury2 - 1) * (cntz * 4) + cntz * 4 == cury2 * (cntz * 4))
                    by (nonlinear_arith);
            }
        }
        let ghost side_total = front_total + (cnty * (cntz * 4)) as int;

        // top and bottom faces
        let starty_top = fx_add(center.y, hh);
        let starty_bottom = fx_sub(starty_top, height);
        let startz_top = fx_add(center.z, hd);
        let mut curz2: usize = 0;
        while curz2 < cntz
            invariant
                curz2 <= cntz,
                cntx >= 1,
                cntx <= 0x1000 && cntz <= 0x1000,
                side_total == cnty * (cntx * 4) + cnty * (cntz * 4),
                block.shapes@.len() == side_total + curz2 * (cntx * 4),
                forall|i: int|
                    0 <= i < block.shapes@.len() ==> #[trigger] block.shapes@[i].tex_id == -1
                        && block.shapes@[i].vertices@.len() == 3,
            decreases cntz - curz2,
        {
            let mut curx2: usize = 0;
            while curx2 < cntx
                invariant
                    curx2 <= cntx,
                    cntx >= 1,
                    cntx <= 0x1000 && cntz <= 0x1000 && curz2 < cntz,
                    side_total == cnty * (cntx * 4) + cnty * (cntz * 4),
                    block.shapes@.len() == side_total + curz2 * (cntx * 4) + curx2 * 4,
                    forall|i: int|
                        0 <= i < block.shapes@.len() ==> #[trigger] block.shapes@[i].tex_id == -1
                            && block.shapes@[i].vertices@.len() == 3,
                decreases cntx - curx2,
            {
                let x0 = fx_add(startx, fx_mul(fx_of_count_pub(curx2), wseg));
                let x1 = fx_add(startx, fx_mul(fx_of_count_pub(curx2 + 1), wseg));
                let z0 = fx_sub(startz_top, fx_mul(fx_of_count_pub(curz2), dseg));
                let z1 = fx_sub(startz_top, fx_mul(fx_of_count_pub(curz2 + 1), dseg));
                let p1 = Vec3 { x: x0, y: starty_top, z: z0 };
                let p2 = Vec3 { x: x1, y: starty_top, z: z0 };
                let p3 = Vec3 { x: x0, y: starty_top, z: z1 };
                let p4 = Vec3 { x: x1, y: starty_top, z: z1 };
                block.shapes.push(Shape::new_triangle(&p1, &p2, &p3));
                block.shapes.push(Shape::new_triangle(&p3, &p2, &p4));
                let q1 = Vec3 { x: x0, y: starty_bottom, z: z0 };
                let q2 = Vec3 { x: x1, y: starty_bottom, z: z0 };
                let q3 = Vec3 { x: x0, y: starty_bottom, z: z1 };
                let q4 = Vec3 { x: x1, y: starty_bottom, z: z1 };
                block.shapes.push(Shape::new_triangle(&q2, &q1, &q4));
                block.shapes.push(Shape::new_triangle(&q4, &q1, &q3));
                curx2 = curx2 + 1;
            }
            curz2 = curz2 + 1;
            proof {
                assert((curz2 - 1) * (cntx * 4) + cntx * 4 == curz2 * (cntx * 4))
                    by (nonlinear_arith);
            }
        }
        proof {
            assert(cnty * (cntx * 4) == cntx * cnty * 4 && cnty * (cntz * 4) == cnty * cntz * 4
                && cntz * (cntx * 4) == cntz * cntx * 4) by (nonlinear_arith);
        }
        block
    }

    /// A flat grid of grey lines: eleven lines along each ground axis.
    pub fn raster(linelen: i64) -> (m: Mesh)
        ensures
            m.shapes@.len() == 22,
            forall|i: int|
                0 <= i < m.shapes@.len() ==> #[trigger] m.shapes@[i].tex_id == -1
                    && m.shapes@[i].vertices@.len() == 2,
            forall|i: int, j: int|
                0 <= i < m.shapes@.len() && 0 <= j < 2 ==> #[trigger] m.shapes@[i].vertices@[j].color
                    == (Color { r: FX_128, g: FX_128, b: FX_128 }),
    {
        let mut raster: Mesh = Mesh::new(22);
        let neg_len = fx_neg(linelen);
        let mut k: usize = 0;
        while k < 11
            invariant
                k <= 11,
                raster.shapes@.len() == k,
                forall|i: int|
                    0 <= i < raster.shapes@.len() ==> #[trigger] raster.shapes@[i].tex_id == -1
                        && raster.shapes@[i].vertices@.len() == 2,
                forall|i: int, j: int|
                    0 <= i < raster.shapes@.len() && 0 <= j < 2
                        ==> #[trigger] raster.shapes@[i].vertices@[j].color == (Color {
                        r: FX_128,
                        g: FX_128,
                        b: FX_128,
                    }),
            decreases 11 - k,
        {
            let x = grid_coord(k);
            let start = Vec3 { x, y: 0, z: neg_len };
            let end = Vec3 { x, y: 0, z: linelen };
            let mut curshape = Shape::new_line(&start, &end);
            let g = grey();
            curshape.set_color(&g);
            raster.shapes.push(curshape);
            k = k + 1;
        }
        let mut k2: usize = 0;
        while k2 < 11
            invariant
                k2 <= 11,
                raster.shapes@.len() == 11 + k2,
                forall|i: int|
                    0 <= i < raster.shapes@.len() ==> #[trigger] raster.shapes@[i].tex_id == -1
                        && raster.shapes@[i].vertices@.len() == 2,
                forall|i: int, j: int|
                    0 <= i < raster.shapes@.len() && 0 <= j < 2
                        ==> #[trigger] raster.shapes@[i].vertices@[j].color == (Color {
                        r: FX_128,
                        g: FX_128,
                        b: FX_128,
                    }),
            decreases 11 - k2,
        {
            let z = grid_coord(k2);
            let start = Vec3 { x: neg_len, y: 0, z };
            let end = Vec3 { x: linelen, y: 0, z };
            let mut curshape = Shape::new_line(&start, &end);
            let g = grey();
            curshape.set_color(&g);
            raster.shapes.push(curshape);
            k2 = k2 + 1;
        }
        raster
    }

    /// A cubic lattice of points: a 21 by 21 by 21 grid around the origin.
    pub fn point_raster() -> (m: Mesh)
        ensures
            m.shapes@.len() == 21 * 21 * 21,
            forall|i: int|
                0 <= i < m.shapes@.len() ==> #[trigger] m.shapes@[i].tex_id == -1
                    && m.shapes@[i].vertices@.len() == 1,
    {
        let pdiff: i64 = fx_div(8 * 0x1_0000_0000i64, 100 * 0x1_0000_0000i64);
        let mut raster: Mesh = Mesh::new(21 * 21 * 21);
        let mut x: usize = 0;
        while x < 21
            invariant
                x <= 21,
                raster.shapes@.len() == x * (21 * 21),
                forall|i: int|
                    0 <= i < raster.shapes@.len() ==> #[trigger] raster.shapes@[i].tex_id == -1
                        && raster.shapes@[i].vertices@.len() == 1,
            decreases 21 - x,
        {
            let mut y: usize = 0;
            while y < 21
                invariant
                    x < 21,
                    y <= 21,
                    raster.shapes@.len() == x * (21 * 21) + y * 21,
                    forall|i: int|
                        0 <= i < raster.shapes@.len() ==> #[trigger] raster.shapes@[i].tex_id == -1
                            && raster.shapes@[i].vertices@.len() == 1,
                decreases 21 - y,
            {
                let mut z: usize = 0;
                while z < 21
                    invariant
                        x < 21,
                        y < 21,
                        z <= 21,
                        raster.shapes@.len() == x * (21 * 21) + y * 21 + z,
                        forall|i: int|
                            0 <= i < raster.shapes@.len() ==> #[trigger] raster.shapes@[i].tex_id
                                == -1 && raster.shapes@[i].vertices@.len() == 1,
                    decreases 21 - z,
                {
                    let curvec = Vec3 {
                        x: fx_mul(lattice_coord(x), pdiff),
                        y: fx_mul(lattice_coord(y), pdiff),
                        z: fx_mul(lattice_coord(z), pdiff),
                    };
                    raster.shapes.push(Shape::new_point(&curvec));
                    z = z + 1;
                }
                y = y + 1;
                proof {
                    assert(x * (21 * 21) + (y - 1) * 21 + 21 == x * (21 * 21) + y * 21)
                        by (nonlinear_arith);
                }
            }
            x = x + 1;
            proof {
                assert((x - 1) * (21 * 21) + 21 * 21 == x * (21 * 21)) by (nonlinear_arith);
            }
        }
        proof {
            assert(21 * (21 * 21) == 21 * 21 * 21) by (nonlinear_arith);
        }
        raster
    }
}

/// The grid line coordinate of index `k` in an eleven-line grid: half-unit
/// steps from minus five halves to plus five halves.
fn grid_coord(k: usize) -> (r: i64)
    requires
        k <= 11,
    ensures
        r as int == crate::fx::fx_mul_spec(
            crate::fx::fx_sub_spec((k as int) * 0x1_0000_0000, 5int * 0x1_0000_0000int),
            FX_HALF as int,
        ),
{
    fx_mul(fx_sub((k as i64) * 0x1_0000_0000, 5 * 0x1_0000_0000), FX_HALF)
}

/// The lattice coordinate of index `k` in a 21-cell lattice: the signed
/// offset from the central cell, in fixed point.
fn lattice_coord(k: usize) -> (r: i64)
    requires
        k <= 21,
    ensures
        r as int == (k as int) * 0x1_0000_0000 - 10int * 0x1_0000_0000int,
{
    (k as i64) * 0x1_0000_0000 - 10 * 0x1_0000_0000
}

/// The fixed-point value of a small segment count.
fn fx_of_count_pub(n: usize) -> (r: i64)
    requires
        n <= 0x10_0000,
    ensures
        r as int == (n as int) * 0x1_0000_0000,
{
    (n as i64) * 0x1_0000_0000
}

} // verus!
