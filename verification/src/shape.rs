//! Primitives handed to the renderer: a `Shape` is one, two or three
//! `Vertex` values (a point, a line, a triangle), plus an optional texture
//! id (`-1` means untextured).

use vstd::prelude::*;
use crate::color::{black, blue, lime, red, white, Color};
use crate::mat::{mat3_apply_spec, Mat3};
use crate::vec::{v3_scale_spec, v3_translate_spec, Vec2, Vec3};

verus! {

/// A vertex: a position, a color, and a texture coordinate.
#[derive(Clone, Copy, PartialEq, Eq, Structural, Debug)]
pub struct Vertex {
    pub vec: Vec3,
    pub color: Color,
    pub tex_coord: Vec2,
}

/// A primitive: its vertex count selects the rasterizer (1 point, 2 line,
/// 3 triangle); `tex_id == -1` means vertex colors are interpolated instead
/// of sampling a texture.
#[derive(Clone, Debug)]
pub struct Shape {
    pub tex_id: i32,
    pub vertices: Vec<Vertex>,
}

impl Vertex {
    /// A vertex at the origin, black, with zero texture coordinates.
    pub fn new() -> (v: Vertex)
        ensures
            v == (Vertex {
                vec: Vec3 { x: 0i64, y: 0i64, z: 0i64 },
                color: Color { r: 0i64, g: 0i64, b: 0i64 },
                tex_coord: Vec2 { x: 0i64, y: 0i64 },
            }),
    {
        Vertex { vec: Vec3::new_empty(), color: black(), tex_coord: Vec2::new_empty() }
    }

    pub fn new_init(vec: Vec3, color: Color, tex_coord: Vec2) -> (v: Vertex)
        ensures
            v == (Vertex { vec, color, tex_coord }),
    {
        Vertex { vec, color, tex_coord }
    }

    pub fn set_from(&mut self, vertex: &Vertex)
        ensures
            *final(self) == *vertex,
    {
        self.vec.set_from(&vertex.vec);
        self.tex_coord.set_from(&vertex.tex_coord);
        self.color.set_from_color(&vertex.color);
    }

    pub fn set_to(&self, vertex: &mut Vertex)
        ensures
            *final(vertex) == *self,
    {
        vertex.vec.set_from(&self.vec);
        vertex.tex_coord.set_from(&self.tex_coord);
        vertex.color.set_from_color(&self.color);
    }
}

/// A vertex at `vec` with the given color and zero texture coordinates.
pub open spec fn plain_vertex_spec(vec: Vec3, color: Color) -> Vertex {
    Vertex { vec, color, tex_coord: Vec2 { x: 0i64, y: 0i64 } }
}

impl Shape {
    /// An untextured shape with room for `cnt_vertex` vertices, none yet.
    pub fn new(cnt_vertex: usize) -> (s: Shape)
        ensures
            s.tex_id == -1,
            s.vertices@.len() == 0,
    {
        Shape { tex_id: -1, vertices: Vec::with_capacity(cnt_vertex) }
    }

    pub fn new_init(tex_id: i32, vertices: &Vec<Vertex>) -> (s: Shape)
        ensures
            s.tex_id == tex_id,
            s.vertices@ == vertices@,
    {
        Shape { tex_id, vertices: clone_vertices(vertices) }
    }

    /// A point: one vertex, colored red.
    pub fn new_point(vec: &Vec3) -> (s: Shape)
        ensures
            s.tex_id == -1,
            s.vertices@.len() == 1,
            s.vertices@[0] == plain_vertex_spec(*vec, Color { r: crate::color::FX_255, g: 0i64, b: 0i64 }),
    {
        let mut newshape = Shape::new(1);
        newshape.vertices.push(Vertex::new_init(vec.clone(), red(), Vec2::new(0, 0)));
        newshape
    }

    /// A line: its start vertex red, its end vertex lime.
    pub fn new_line(start: &Vec3, end: &Vec3) -> (s: Shape)
        ensures
            s.tex_id == -1,
            s.vertices@.len() == 2,
            s.vertices@[0] == plain_vertex_spec(*start, Color { r: crate::color::FX_255, g: 0i64, b: 0i64 }),
            s.vertices@[1] == plain_vertex_spec(*end, Color { r: 0i64, g: crate::color::FX_255, b: 0i64 }),
    {
        let mut newshape = Shape::new(2);
        newshape.vertices.push(Vertex::new_init(start.clone(), red(), Vec2::new(0, 0)));
        newshape.vertices.push(Vertex::new_init(end.clone(), lime(), Vec2::new(0, 0)));
        newshape
    }

    /// A triangle: its vertices red, white and blue.
    pub fn new_triangle(v1: &Vec3, v2: &Vec3, v3: &Vec3) -> (s: Shape)
        ensures
            s.tex_id == -1,
            s.vertices@.len() == 3,
            s.vertices@[0] == plain_vertex_spec(*v1, Color { r: crate::color::FX_255, g: 0i64, b: 0i64 }),
            s.vertices@[1] == plain_vertex_spec(
                *v2,
                Color { r: crate::color::FX_255, g: crate::color::FX_255, b: crate::color::FX_255 },
            ),
            s.vertices@[2] == plain_vertex_spec(*v3, Color { r: 0i64, g: 0i64, b: crate::color::FX_255 }),
    {
        let mut newshape = Shape::new(3);
        newshape.vertices.push(Vertex::new_init(v1.clone(), red(), Vec2::new(0, 0)));
        newshape.vertices.push(Vertex::new_init(v2.clone(), white(), Vec2::new(0, 0)));
        newshape.vertices.push(Vertex::new_init(v3.clone(), blue(), Vec2::new(0, 0)));
        newshape
    }

    pub fn set_from(&mut self, shape: &Shape)
        ensures
            final(self).tex_id == shape.tex_id,
            final(self).vertices@ == shape.vertices@,
    {
        self.tex_id = shape.tex_id;
        self.vertices = clone_vertices(&shape.vertices);
    }

    pub fn set_to(&self, shape: &mut Shape)
        ensures
            final(shape).tex_id == self.tex_id,
            final(shape).vertices@ == self.vertices@,
    {
        shape.tex_id = self.tex_id;
        shape.vertices = clone_vertices(&self.vertices);
    }

    /// Give every vertex the same color; positions and texture coordinates
    /// are untouched.
    pub fn set_color(&mut self, color: &Color)
        ensures
            final(self).tex_id == old(self).tex_id,
            final(self).vertices@.len() == old(self).vertices@.len(),
            forall|i: int|
                0 <= i < old(self).vertices@.len() ==> final(self).vertices@[i] == (Vertex {
                    color: *color,
                    ..old(self).vertices@[i]
                }),
    {
        let n = self.vertices.len();
        let mut i: usize = 0;
        while i < n
            invariant
                n == self.vertices@.len(),
                n == old(self).vertices@.len(),
                self.tex_id == old(self).tex_id,
                i <= n,
                forall|j: int|
                    0 <= j < i ==> self.vertices@[j] == (Vertex {
                        color: *color,
                        ..old(self).vertices@[j]
                    }),
                forall|j: int| i <= j < n ==> self.vertices@[j] == old(self).vertices@[j],
            decreases n - i,
        {
            let mut v = self.vertices[i];
            v.color.set_from_color(color);
            self.vertices.set(i, v);
            i = i + 1;
        }
    }

    /// Scale every vertex position componentwise.
    pub fn scale(&mut self, x: i64, y: i64, z: i64)
        ensures
            final(self).tex_id == old(self).tex_id,
            final(self).vertices@.len() == old(self).vertices@.len(),
            forall|i: int|
                0 <= i < old(self).vertices@.len() ==> final(self).vertices@[i] == (Vertex {
                    vec: v3_scale_spec(old(self).vertices@[i].vec, x, y, z),
                    ..old(self).vertices@[i]
                }),
    {
        let n = self.vertices.len();
        let mut i: usize = 0;
        while i < n
            invariant
                n == self.vertices@.len(),
                n == old(self).vertices@.len(),
                self.tex_id == old(self).tex_id,
                i <= n,
                forall|j: int|
                    0 <= j < i ==> self.vertices@[j] == (Vertex {
                        vec: v3_scale_spec(old(self).vertices@[j].vec, x, y, z),
                        ..old(self).vertices@[j]
                    }),
                forall|j: int| i <= j < n ==> self.vertices@[j] == old(self).vertices@[j],
            decreases n - i,
        {
            let mut v = self.vertices[i];
            v.vec.scale(x, y, z);
            self.vertices.set(i, v);
            i = i + 1;
        }
    }

    /// Translate every vertex position.
    pub fn translate(&mut self, x: i64, y: i64, z: i64)
        ensures
            final(self).tex_id == old(self).tex_id,
            final(self).vertices@.len() == old(self).vertices@.len(),
            forall|i: int|
                0 <= i < old(self).vertices@.len() ==> final(self).vertices@[i] == (Vertex {
                    vec: v3_translate_spec(old(self).vertices@[i].vec, x, y, z),
                    ..old(self).vertices@[i]
                }),
    {
        let n = self.vertices.len();
        let mut i: usize = 0;
        while i < n
            invariant
                n == self.vertices@.len(),
                n == old(self).vertices@.len(),
                self.tex_id == old(self).tex_id,
                i <= n,
                forall|j: int|
                    0 <= j < i ==> self.vertices@[j] == (Vertex {
                        vec: v3_translate_spec(old(self).vertices@[j].vec, x, y, z),
                        ..old(self).vertices@[j]
                    }),
                forall|j: int| i <= j < n ==> self.vertices@[j] == old(self).vertices@[j],
            decreases n - i,
        {
            let mut v = self.vertices[i];
            v.vec.translate(x, y, z);
            self.vertices.set(i, v);
            i = i + 1;
        }
    }

    /// Apply a 3x3 matrix to every vertex position.
    pub fn transform(&mut self, mat: &Mat3)
        ensures
            final(self).tex_id == old(self).tex_id,
            final(self).vertices@.len() == old(self).vertices@.len(),
            forall|i: int|
                0 <= i < old(self).vertices@.len() ==> final(self).vertices@[i] == (Vertex {
                    vec: mat3_apply_spec(*mat, old(self).vertices@[i].vec),
                    ..old(self).vertices@[i]
                }),
    {
        let n = self.vertices.len();
        let mut i: usize = 0;
        while i < n
            invariant
                n == self.vertices@.len(),
                n == old(self).vertices@.len(),
                self.tex_id == old(self).tex_id,
                i <= n,
                forall|j: int|
                    0 <= j < i ==> self.vertices@[j] == (Vertex {
                        vec: mat3_apply_spec(*mat, old(self).vertices@[j].vec),
                        ..old(self).vertices@[j]
                    }),
                forall|j: int| i <= j < n ==> self.vertices@[j] == old(self).vertices@[j],
            decreases n - i,
        {
            let mut v = self.vertices[i];
            v.vec = mat.apply(&v.vec);
            self.vertices.set(i, v);
            i = i + 1;
        }
    }
}

/// An elementwise copy of a shape list: each copy has the same texture id
/// and the same vertices.
pub fn clone_shapes(v: &Vec<Shape>) -> (r: Vec<Shape>)
    ensures
        r@.len() == v@.len(),
        forall|i: int|
            0 <= i < v@.len() ==> #[trigger] r@[i].tex_id == v@[i].tex_id && r@[i].vertices@
                == v@[i].vertices@,
{
    let mut r: Vec<Shape> = Vec::new();
    let n = v.len();
    let mut i: usize = 0;
    while i < n
        invariant
            n == v@.len(),
            i <= n,
            r@.len() == i,
            forall|j: int|
                0 <= j < i ==> #[trigger] r@[j].tex_id == v@[j].tex_id && r@[j].vertices@
                    == v@[j].vertices@,
        decreases n - i,
    {
        let sh = &v[i];
        r.push(Shape { tex_id: sh.tex_id, vertices: clone_vertices(&sh.vertices) });
        i = i + 1;
    }
    r
}

/// An elementwise copy of a vertex list.
pub fn clone_vertices(v: &Vec<Vertex>) -> (r: Vec<Vertex>)
    ensures
        r@ == v@,
{
    let mut r: Vec<Vertex> = Vec::new();
    let n = v.len();
    let mut i: usize = 0;
    while i < n
        invariant
            n == v@.len(),
            i <= n,
            r@ == v@.subrange(0, i as int),
        decreases n - i,
    {
        r.push(v[i]);
        proof {
            assert(r@ =~= v@.subrange(0, i + 1 as int));
        }
        i = i + 1;
    }
    proof {
        assert(r@ =~= v@);
    }
    r
}

} // verus!
