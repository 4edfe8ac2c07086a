//! Scenes: lists of meshes submitted to the renderer as a whole, and a few
//! ready-made scene builders.

use vstd::prelude::*;
use crate::mat::{mat3_apply_spec, Mat3};
use crate::mesh::Mesh;
use crate::shape::Vertex;
use crate::vec::{v3_scale_spec, v3_translate_spec};

verus! {

/// A list of meshes.
#[derive(Clone, Debug)]
pub struct Scene {
    pub meshes: Vec<Mesh>,
}

impl Scene {
    /// An empty scene with room for `cnt_mesh` meshes.
    pub fn new(cnt_mesh: usize) -> (s: Scene)
        ensures
            s.meshes@.len() == 0,
    {
        Scene { meshes: Vec::with_capacity(cnt_mesh) }
    }

    /// Apply a 3x3 matrix to every vertex of every mesh.
    pub fn transform(&mut self, mat: &Mat3)
        ensures
            final(self).meshes@.len() == old(self).meshes@.len(),
            forall|m: int, i: int, j: int|
                0 <= m < old(self).meshes@.len() && 0 <= i < old(self).meshes@[m].shapes@.len() && 0
                    <= j < old(self).meshes@[m].shapes@[i].vertices@.len() ==> #[trigger] final(self).meshes@[m].shapes@[i].vertices@[j] == (Vertex {
                    vec: mat3_apply_spec(*mat, old(self).meshes@[m].shapes@[i].vertices@[j].vec),
                    ..old(self).meshes@[m].shapes@[i].vertices@[j]
                }),
    {
        let n = self.meshes.len();
        let mut i: usize = 0;
        while i < n
            invariant
                n == self.meshes@.len(),
                n == old(self).meshes@.len(),
                i <= n,
                forall|m: int, k: int, j: int|
                    0 <= m < i && 0 <= k < old(self).meshes@[m].shapes@.len() && 0 <= j < old(self).meshes@[m].shapes@[k].vertices@.len()
                        ==> #[trigger] self.meshes@[m].shapes@[k].vertices@[j] == (Vertex {
                        vec: mat3_apply_spec(*mat, old(self).meshes@[m].shapes@[k].vertices@[j].vec),
                        ..old(self).meshes@[m].shapes@[k].vertices@[j]
                    }),
                forall|m: int| i <= m < n ==> self.meshes@[m] == old(self).meshes@[m],
            decreases n - i,
        {
            let ghost pre = self.meshes@;
            let mut m = self.meshes.remove(i);
            m.transform(mat);
            self.meshes.insert(i, m);
            proof {
                assert(self.meshes@ =~= pre.update(i as int, m));
                assert forall|mm: int, k: int, j: int|
                    0 <= mm < i + 1 && 0 <= k < old(self).meshes@[mm].shapes@.len() && 0 <= j < old(
                        self,
                    ).meshes@[mm].shapes@[k].vertices@.len()
                        implies #[trigger] self.meshes@[mm].shapes@[k].vertices@[j] == (Vertex {
                        vec: mat3_apply_spec(*mat, old(self).meshes@[mm].shapes@[k].vertices@[j].vec),
                        ..old(self).meshes@[mm].shapes@[k].vertices@[j]
                    }) by {
                    if mm == i as int {
                        assert(pre[mm] == old(self).meshes@[mm]);
                        assert(self.meshes@[mm] == m);
                        assert(m.shapes@[k].vertices@[j] == (Vertex {
                            vec: mat3_apply_spec(*mat, pre[mm].shapes@[k].vertices@[j].vec),
                            ..pre[mm].shapes@[k].vertices@[j]
                        }));
                    } else {
                        assert(self.meshes@[mm] == pre[mm]);
                    }
                }
            }
            i = i + 1;
        }
    }

    /// Scale every vertex of every mesh componentwise.
    pub fn scale(&mut self, x: i64, y: i64, z: i64)
        ensures
            final(self).meshes@.len() == old(self).meshes@.len(),
            forall|m: int, i: int, j: int|
                0 <= m < old(self).meshes@.len() && 0 <= i < old(self).meshes@[m].shapes@.len() && 0
                    <= j < old(self).meshes@[m].shapes@[i].vertices@.len() ==> #[trigger] final(self).meshes@[m].shapes@[i].vertices@[j] == (Vertex {
                    vec: v3_scale_spec(old(self).meshes@[m].shapes@[i].vertices@[j].vec, x, y, z),
                    ..old(self).meshes@[m].shapes@[i].vertices@[j]
                }),
    {
        let n = self.meshes.len();
        let mut i: usize = 0;
        while i < n
            invariant
                n == self.meshes@.len(),
                n == old(self).meshes@.len(),
                i <= n,
                forall|m: int, k: int, j: int|
                    0 <= m < i && 0 <= k < old(self).meshes@[m].shapes@.len() && 0 <= j < old(self).meshes@[m].shapes@[k].vertices@.len()
                        ==> #[trigger] self.meshes@[m].shapes@[k].vertices@[j] == (Vertex {
                        vec: v3_scale_spec(old(self).meshes@[m].shapes@[k].vertices@[j].vec, x, y, z),
                        ..old(self).meshes@[m].shapes@[k].vertices@[j]
                    }),
                forall|m: int| i <= m < n ==> self.meshes@[m] == old(self).meshes@[m],
            decreases n - i,
        {
            let ghost pre = self.meshes@;
            let mut m = self.meshes.remove(i);
            m.scale(x, y, z);
            self.meshes.insert(i, m);
            proof {
                assert(self.meshes@ =~= pre.update(i as int, m));
                assert forall|mm: int, k: int, j: int|
                    0 <= mm < i + 1 && 0 <= k < old(self).meshes@[mm].shapes@.len() && 0 <= j < old(
                        self,
                    ).meshes@[mm].shapes@[k].vertices@.len()
                        implies #[trigger] self.meshes@[mm].shapes@[k].vertices@[j] == (Vertex {
                        vec: v3_scale_spec(old(self).meshes@[mm].shapes@[k].vertices@[j].vec, x, y, z),
                        ..old(self).meshes@[mm].shapes@[k].vertices@[j]
                    }) by {
                    if mm == i as int {
                        assert(pre[mm] == old(self).meshes@[mm]);
                        assert(self.meshes@[mm] == m);
                        assert(m.shapes@[k].vertices@[j] == (Vertex {
                            vec: v3_scale_spec(pre[mm].shapes@[k].vertices@[j].vec, x, y, z),
                            ..pre[mm].shapes@[k].vertices@[j]
                        }));
                    } else {
                        assert(self.meshes@[mm] == pre[mm]);
                    }
                }
            }
            i = i + 1;
        }
    }

    /// Translate every vertex of every mesh.
    pub fn translate(&mut self, x: i64, y: i64, z: i64)
        ensures
            final(self).meshes@.len() == old(self).meshes@.len(),
            forall|m: int, i: int, j: int|
                0 <= m < old(self).meshes@.len() && 0 <= i < old(self).meshes@[m].shapes@.len() && 0
                    <= j < old(self).meshes@[m].shapes@[i].vertices@.len() ==> #[trigger] final(self).meshes@[m].shapes@[i].vertices@[j] == (Vertex {
                    vec: v3_translate_spec(
                        old(self).meshes@[m].shapes@[i].vertices@[j].vec,
                        x,
                        y,
                        z,
                    ),
                    ..old(self).meshes@[m].shapes@[i].vertices@[j]
                }),
    {
        let n = self.meshes.len();
        let mut i: usize = 0;
        while i < n
            invariant
                n == self.meshes@.len(),
                n == old(self).meshes@.len(),
                i <= n,
                forall|m: int, k: int, j: int|
                    0 <= m < i && 0 <= k < old(self).meshes@[m].shapes@.len() && 0 <= j < old(self).meshes@[m].shapes@[k].vertices@.len()
                        ==> #[trigger] self.meshes@[m].shapes@[k].vertices@[j] == (Vertex {
                        vec: v3_translate_spec(
                            old(self).meshes@[m].shapes@[k].vertices@[j].vec,
                            x,
                            y,
                            z,
                        ),
                        ..old(self).meshes@[m].shapes@[k].vertices@[j]
                    }),
                forall|m: int| i <= m < n ==> self.meshes@[m] == old(self).meshes@[m],
            decreases n - i,
        {
            let ghost pre = self.meshes@;
            let mut m = self.meshes.remove(i);
            m.translate(x, y, z);
            self.meshes.insert(i, m);
            proof {
                assert(self.meshes@ =~= pre.update(i as int, m));
                assert forall|mm: int, k: int, j: int|
                    0 <= mm < i + 1 && 0 <= k < old(self).meshes@[mm].shapes@.len() && 0 <= j < old(
                        self,
                    ).meshes@[mm].shapes@[k].vertices@.len()
                        implies #[trigger] self.meshes@[mm].shapes@[k].vertices@[j] == (Vertex {
                        vec: v3_translate_spec(old(self).meshes@[mm].shapes@[k].vertices@[j].vec, x, y, z),
                        ..old(self).meshes@[mm].shapes@[k].vertices@[j]
                    }) by {
                    if mm == i as int {
                        assert(pre[mm] == old(self).meshes@[mm]);
                        assert(self.meshes@[mm] == m);
                        assert(m.shapes@[k].vertices@[j] == (Vertex {
                            vec: v3_translate_spec(pre[mm].shapes@[k].vertices@[j].vec, x, y, z),
                            ..pre[mm].shapes@[k].vertices@[j]
                        }));
                    } else {
                        assert(self.meshes@[mm] == pre[mm]);
                    }
                }
            }
            i = i + 1;
        }
    }
}

/// Ready-made scenes built from the mesh constructors.
pub struct SceneBuilder {}

impl SceneBuilder {
    /// A scene of one grid-of-lines mesh.
    pub fn raster(linelen: i64) -> (s: Scene)
        ensures
            s.meshes@.len() == 1,
            s.meshes@[0].shapes@.len() == 22,
            forall|i: int|
                0 <= i < s.meshes@[0].shapes@.len() ==> #[trigger] s.meshes@[0].shapes@[i].tex_id
                    == -1 && s.meshes@[0].shapes@[i].vertices@.len() == 2,
    {
        let mut scene: Scene = Scene::new(1);
        scene.meshes.push(crate::mesh::MeshBuilder::raster(linelen));
        scene
    }

    /// A scene of one triangle spanning the canonical volume, colored by its
    /// bounding box.
    pub fn triangle() -> (s: Scene)
        ensures
            s.meshes@.len() == 1,
            s.meshes@[0].shapes@.len() == 1,
            s.meshes@[0].shapes@[0].tex_id == -1,
            s.meshes@[0].shapes@[0].vertices@.len() == 3,
    {
        let p1 = crate::vec::Vec3 {
            x: -crate::fx::FX_HALF,
            y: -crate::fx::FX_HALF,
            z: crate::fx::FX_HALF,
        };
        let p2 = crate::vec::Vec3 {
            x: crate::fx::FX_HALF,
            y: -crate::fx::FX_HALF,
            z: crate::fx::FX_HALF,
        };
        let p3 = crate::vec::Vec3 { x: 0, y: crate::fx::FX_HALF, z: -crate::fx::FX_HALF };
        let mut scene: Scene = Scene::new(1);
        let mut mesh = crate::mesh::MeshBuilder::triangle(&p1, &p2, &p3);
        mesh.compute_bbox();
        mesh.color_by_bbox();
        scene.meshes.push(mesh);
        scene
    }

    /// A scene of one point-lattice mesh, colored by its bounding box.
    pub fn point_raster() -> (s: Scene)
        ensures
            s.meshes@.len() == 1,
            s.meshes@[0].shapes@.len() == 21 * 21 * 21,
            forall|i: int|
                0 <= i < s.meshes@[0].shapes@.len() ==> #[trigger] s.meshes@[0].shapes@[i].tex_id
                    == -1 && s.meshes@[0].shapes@[i].vertices@.len() == 1,
    {
        let mut scene: Scene = Scene::new(1);
        let mut mesh = crate::mesh::MeshBuilder::point_raster();
        mesh.compute_bbox();
        mesh.color_by_bbox();
        scene.meshes.push(mesh);
        scene
    }

    /// A scene of one small cube whose faces sample the first texture: the
    /// two triangles of each face carry the complementary texture-coordinate
    /// corners of the unit square.
    pub fn texture_test() -> (s: Scene)
        ensures
            s.meshes@.len() == 1,
            s.meshes@[0].shapes@.len() == 12,
            forall|i: int|
                #![trigger s.meshes@[0].shapes@[i]]
                0 <= i < s.meshes@[0].shapes@.len() ==> s.meshes@[0].shapes@[i].tex_id == 0
                    && s.meshes@[0].shapes@[i].vertices@.len() == 3,
    {
        let center = crate::vec::Vec3::new_empty();
        let quarter: i64 = crate::fx::FX_HALF / 2;
        let mut scene: Scene = Scene::new(1);
        let mut mesh = crate::mesh::MeshBuilder::cube(&center, quarter);
        let n = mesh.shapes.len();
        let mut i: usize = 0;
        while i + 1 < n
            invariant
                n == mesh.shapes@.len(),
                n == 12,
                i % 2 == 0,
                i <= n,
                forall|k: int|
                    0 <= k < i ==> #[trigger] mesh.shapes@[k].tex_id == 0
                        && mesh.shapes@[k].vertices@.len() == 3,
                forall|k: int|
                    i <= k < n ==> #[trigger] mesh.shapes@[k].tex_id == -1
                        && mesh.shapes@[k].vertices@.len() == 3,
            decreases n - i,
        {
            let ghost pre = mesh.shapes@;
            proof {
                assert(0 <= i as int && i + 1 < n as int);
                assert(mesh.shapes@[i as int].tex_id == -1);
                assert(mesh.shapes@[i as int].vertices@.len() == 3);
                assert(mesh.shapes@[(i + 1) as int].tex_id == -1);
                assert(mesh.shapes@[(i + 1) as int].vertices@.len() == 3);
            }
            let mut first = mesh.shapes.remove(i);
            first.tex_id = 0;
            let mut v0 = first.vertices[0];
            v0.tex_coord = crate::vec::Vec2 { x: 0, y: crate::fx::FX_ONE };
            first.vertices.set(0, v0);
            let mut v1 = first.vertices[1];
            v1.tex_coord = crate::vec::Vec2 { x: crate::fx::FX_ONE, y: crate::fx::FX_ONE };
            first.vertices.set(1, v1);
            let mut v2 = first.vertices[2];
            v2.tex_coord = crate::vec::Vec2 { x: 0, y: 0 };
            first.vertices.set(2, v2);
            mesh.shapes.insert(i, first);
            proof {
                assert(mesh.shapes@ =~= pre.update(i as int, first));
            }
            let ghost pre2 = mesh.shapes@;
            let mut second = mesh.shapes.remove(i + 1);
            second.tex_id = 0;
            let mut w0 = second.vertices[0];
            w0.tex_coord = crate::vec::Vec2 { x: 0, y: 0 };
            second.vertices.set(0, w0);
            let mut w1 = second.vertices[1];
            w1.tex_coord = crate::vec::Vec2 { x: crate::fx::FX_ONE, y: crate::fx::FX_ONE };
            second.vertices.set(1, w1);
            let mut w2 = second.vertices[2];
            w2.tex_coord = crate::vec::Vec2 { x: crate::fx::FX_ONE, y: 0 };
            second.vertices.set(2, w2);
            mesh.shapes.insert(i + 1, second);
            proof {
                assert(mesh.shapes@ =~= pre2.update(i + 1, second));
                assert(first.tex_id == 0 && first.vertices@.len() == 3);
                assert(second.tex_id == 0 && second.vertices@.len() == 3);
                assert forall|k: int| 0 <= k < i + 2 implies #[trigger] mesh.shapes@[k].tex_id == 0
                    && mesh.shapes@[k].vertices@.len() == 3 by {
                    if k == i as int {
                        assert(mesh.shapes@[k] == first);
                    } else if k == i + 1 {
                        assert(mesh.shapes@[k] == second);
                    } else {
                        assert(mesh.shapes@[k] == pre[k]);
                        assert(pre[k].tex_id == 0 && pre[k].vertices@.len() == 3);
                    }
                }
                assert forall|k: int| i + 2 <= k < n implies #[trigger] mesh.shapes@[k].tex_id
                    == -1 && mesh.shapes@[k].vertices@.len() == 3 by {
                    assert(mesh.shapes@[k] == pre[k]);
                    assert(pre[k].tex_id == -1 && pre[k].vertices@.len() == 3);
                }
            }
            i = i + 2;
        }
        proof {
            assert(i == 12);
            assert forall|k: int|
                0 <= k < mesh.shapes@.len() implies #[trigger] mesh.shapes@[k].tex_id == 0
                    && mesh.shapes@[k].vertices@.len() == 3 by {}
        }
        scene.meshes.push(mesh);
        proof {
            assert(scene.meshes@[0] == mesh);
            assert forall|k: int|
                #![trigger scene.meshes@[0].shapes@[k]]
                0 <= k < scene.meshes@[0].shapes@.len() implies scene.meshes@[0].shapes@[k].tex_id
                == 0 && scene.meshes@[0].shapes@[k].vertices@.len() == 3 by {
                assert(mesh.shapes@[k].tex_id == 0 && mesh.shapes@[k].vertices@.len() == 3);
            }
        }
        scene
    }
}

} // verus!
