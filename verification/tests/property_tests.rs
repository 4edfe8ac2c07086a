//! Behavior checks of the pipeline: the camera inverse, center-point
//! projection, full-viewport coverage, depth-order independence, the
//! supersampled blend, the image encoding, and the empty-scene round trip,
//! with unit checks of the fixed-point core, colors and builders.

use softrast::camera::{Camera, ConfigError};
use softrast::color::{black, blue, grey, red, white, Color};
use softrast::fx::{fx_add, fx_div, fx_mul, fx_neg, fx_sqrt, fx_sub, interpolate_lin, FX_ONE};
use softrast::mat::Mat4;
use softrast::mesh::MeshBuilder;
use softrast::ppm::ppm_bytes;
use softrast::renderer::Renderer;
use softrast::scene::{Scene, SceneBuilder};
use softrast::shape::Shape;
use softrast::texture::{ArithmeticBoxFilter, InvertFilter, Texture, TextureFilter};
use softrast::vec::Vec3;

fn fxp(v: f64) -> i64 {
    (v * 4294967296.0_f64).round() as i64
}

fn base_renderer(width: usize, height: usize, bg: &Color, samplestep: usize) -> Renderer {
    let mut renderer = Renderer::new(width, height, bg, samplestep);
    let from = Vec3::new(0, 0, FX_ONE);
    let to = Vec3::new_empty();
    renderer
        .camera
        .to_ortho(&from, &to, -FX_ONE, FX_ONE, FX_ONE, -FX_ONE, FX_ONE, fxp(5.0))
        .unwrap();
    renderer
}

fn pixel(bytes: &[u8], width: usize, x: usize, y: usize) -> (u8, u8, u8) {
    let p = 3 * (y * width + x);
    (bytes[p], bytes[p + 1], bytes[p + 2])
}

/// The view matrix times the camera-to-world matrix it inverts is the
/// identity within a small tolerance, for a generic camera pose.
#[test]
fn view_times_inverse_is_identity() {
    let mut cam = Camera::new();
    let from = Vec3::new(fxp(1.0), fxp(2.0), fxp(3.0));
    let to = Vec3::new(fxp(0.2), fxp(-0.4), fxp(0.1));
    cam.look_at_ortho(&from, &to).unwrap();
    // rebuild the camera-to-world matrix from the basis the camera stores
    let m = Mat4 {
        m11: cam.left.x,
        m12: cam.up.x,
        m13: cam.forward.x,
        m14: from.x,
        m21: cam.left.y,
        m22: cam.up.y,
        m23: cam.forward.y,
        m24: from.y,
        m31: cam.left.z,
        m32: cam.up.z,
        m33: cam.forward.z,
        m34: from.z,
        m41: 0,
        m42: 0,
        m43: 0,
        m44: FX_ONE,
    };
    let prod = cam.view.times(&m);
    let eps = fxp(1.0e-4);
    let entries = [
        (prod.m11, FX_ONE),
        (prod.m12, 0),
        (prod.m13, 0),
        (prod.m14, 0),
        (prod.m21, 0),
        (prod.m22, FX_ONE),
        (prod.m23, 0),
        (prod.m24, 0),
        (prod.m31, 0),
        (prod.m32, 0),
        (prod.m33, FX_ONE),
        (prod.m34, 0),
        (prod.m41, 0),
        (prod.m42, 0),
        (prod.m43, 0),
        (prod.m44, FX_ONE),
    ];
    for (got, want) in entries {
        assert!((got - want).abs() <= eps, "entry off by {}", got - want);
    }
}

/// A point at the look-at target lands in the pixel nearest the image
/// center.
#[test]
fn point_at_target_hits_center() {
    let mut renderer = base_renderer(512, 512, &black(), 1);
    let target = Vec3::new_empty();
    let mesh = MeshBuilder::point(&target);
    renderer.render_mesh(&mesh);
    let bytes = renderer.fb_pixels();
    assert_eq!(pixel(&bytes, 512, 256, 256), (255, 0, 0));
    // the rest of that row stays background
    assert_eq!(pixel(&bytes, 512, 0, 256), (0, 0, 0));
}

/// Two triangles whose projected corners meet the four image corners cover
/// every pixel: no gap along the shared diagonal.
#[test]
fn viewport_quad_covers_every_pixel() {
    let mut renderer = base_renderer(64, 64, &black(), 2);
    let lb = Vec3::new(fxp(-1.0), fxp(-1.0), 0);
    let rb = Vec3::new(fxp(1.0), fxp(-1.0), 0);
    let lt = Vec3::new(fxp(-1.0), fxp(1.0), 0);
    let rt = Vec3::new(fxp(1.0), fxp(1.0), 0);
    let mut quad = MeshBuilder::quad(&lb, &rb, &lt, &rt);
    let r = red();
    let b = blue();
    quad.shapes[0].set_color(&r);
    quad.shapes[1].set_color(&b);
    renderer.render_mesh(&quad);
    let bytes = renderer.fb_pixels();
    for y in 0..64 {
        for x in 0..64 {
            let px = pixel(&bytes, 64, x, y);
            assert_ne!(px, (0, 0, 0), "uncovered pixel at {} {}", x, y);
        }
    }
}

/// Two overlapping triangles of different depths resolve to the nearer color
/// in either submission order.
#[test]
fn overlap_shows_nearer_in_either_order() {
    let lb = Vec3::new(fxp(-1.0), fxp(-1.0), fxp(0.5));
    let rb = Vec3::new(fxp(1.0), fxp(-1.0), fxp(0.5));
    let lt = Vec3::new(fxp(-1.0), fxp(1.0), fxp(0.5));
    let mut near_tri = MeshBuilder::triangle(&lb, &rb, &lt);
    let r = red();
    near_tri.shapes[0].set_color(&r);

    let lb2 = Vec3::new(fxp(-1.0), fxp(-1.0), 0);
    let rb2 = Vec3::new(fxp(1.0), fxp(-1.0), 0);
    let lt2 = Vec3::new(fxp(-1.0), fxp(1.0), 0);
    let mut far_tri = MeshBuilder::triangle(&lb2, &rb2, &lt2);
    let b = blue();
    far_tri.shapes[0].set_color(&b);

    let mut first = base_renderer(32, 32, &black(), 1);
    first.render_mesh(&near_tri);
    first.render_mesh(&far_tri);
    let mut second = base_renderer(32, 32, &black(), 1);
    second.render_mesh(&far_tri);
    second.render_mesh(&near_tri);

    let a = first.fb_pixels();
    let c = second.fb_pixels();
    assert_eq!(a, c);
    // a pixel well inside the overlap shows the nearer triangle
    assert_eq!(pixel(&a, 32, 4, 28), (255, 0, 0));
}

/// With four sub-samples, a triangle covering exactly half of them blends
/// the pixel halfway toward the background.
#[test]
fn half_covered_pixel_blends_halfway() {
    let mut renderer = base_renderer(1, 1, &blue(), 2);
    // raster-space corners (0.5, -10), (0.5, 10), (1.5, 0): the right half
    // of the pixel, covering the two sub-samples at x = 0.75
    let a = Vec3::new(0, fxp(21.0), 0);
    let b = Vec3::new(0, fxp(-19.0), 0);
    let c = Vec3::new(fxp(2.0), fxp(1.0), 0);
    let mut tri = MeshBuilder::triangle(&a, &b, &c);
    let r = red();
    tri.shapes[0].set_color(&r);
    renderer.render_mesh(&tri);
    let bytes = renderer.fb_pixels();
    assert_eq!(pixel(&bytes, 1, 0, 0), (127, 0, 127));
}

/// The encoded stream starts with the exact header and carries three bytes
/// per pixel.
#[test]
fn encoding_has_header_and_payload() {
    let pixels: Vec<u8> = vec![9u8; 3 * 3 * 2];
    let bytes = ppm_bytes(3, 2, &pixels);
    assert_eq!(&bytes[..11], b"P6\n3 2\n255\n");
    assert_eq!(bytes.len(), 11 + 18);
    let renderer = base_renderer(512, 512, &black(), 1);
    let stream = renderer.fb_ppm_bytes();
    assert_eq!(&stream[..15], b"P6\n512 512\n255\n");
    assert_eq!(stream.len(), 15 + 3 * 512 * 512);
}

/// Rendering an empty scene gives rows of pure background color.
#[test]
fn empty_scene_resolves_to_background() {
    let mut renderer = base_renderer(4, 4, &grey(), 2);
    let scene = Scene::new(0);
    renderer.render_scene(&scene);
    let bytes = renderer.fb_pixels();
    assert_eq!(bytes.len(), 3 * 16);
    for v in bytes {
        assert_eq!(v, 128);
    }
    // an untouched depth image is black
    let depth = renderer.zb_pixels();
    let mut renderer1 = base_renderer(4, 4, &grey(), 1);
    renderer1.render_scene(&scene);
    for v in renderer1.zb_pixels() {
        assert_eq!(v, 0);
    }
    assert_eq!(depth.len(), 3 * 16);
}

#[test]
fn clear_frame_resets_buffers() {
    let mut renderer = base_renderer(8, 8, &grey(), 2);
    let tri = MeshBuilder::triangle(
        &Vec3::new(fxp(-0.5), fxp(-0.5), 0),
        &Vec3::new(fxp(0.5), fxp(-0.5), 0),
        &Vec3::new(0, fxp(0.5), 0),
    );
    renderer.render_mesh(&tri);
    renderer.clear_frame();
    for v in renderer.fb_pixels() {
        assert_eq!(v, 128);
    }
}

#[test]
fn fixed_point_arithmetic_is_exact() {
    assert_eq!(fx_add(fxp(1.5), fxp(2.25)), fxp(3.75));
    assert_eq!(fx_sub(fxp(1.0), fxp(2.5)), fxp(-1.5));
    assert_eq!(fx_mul(fxp(3.0), fxp(0.5)), fxp(1.5));
    assert_eq!(fx_mul(fxp(-3.0), fxp(0.5)), fxp(-1.5));
    assert_eq!(fx_div(fxp(1.0), fxp(4.0)), fxp(0.25));
    assert_eq!(fx_div(fxp(1.0), 0), 0);
    assert_eq!(fx_neg(fxp(2.0)), fxp(-2.0));
    assert_eq!(fx_sqrt(fxp(4.0)), fxp(2.0));
    assert_eq!(fx_sqrt(fxp(0.25)), fxp(0.5));
    assert_eq!(fx_sqrt(fxp(-1.0)), 0);
    assert_eq!(interpolate_lin(fxp(0.5), 0, 0, fxp(1.0), fxp(255.0)), fxp(127.5));
    assert_eq!(interpolate_lin(fxp(7.0), fxp(7.0), fxp(3.0), fxp(7.0), fxp(9.0)), fxp(3.0));
}

#[test]
fn color_adjustments() {
    let mut c = Color::new(fxp(10.0), fxp(100.0), fxp(250.0));
    c.invert();
    assert_eq!(c, Color::new(fxp(245.0), fxp(155.0), fxp(5.0)));
    c.set_brightness(fxp(120.0));
    assert_eq!(c, Color::new(fxp(255.0), fxp(255.0), fxp(125.0)));
    let mut target = Color::new(0, 0, 0);
    let base = Color::new(fxp(64.0), fxp(128.0), fxp(192.0));
    base.set_brightness_to(fxp(-70.0), &mut target);
    assert_eq!(target, Color::new(0, fxp(58.0), fxp(122.0)));
    // zero contrast leaves the midpoint fixed
    let mut mid = Color::new(fxp(128.0), fxp(128.0), fxp(128.0));
    mid.set_contrast(0);
    assert_eq!(mid, Color::new(fxp(128.0), fxp(128.0), fxp(128.0)));
    let mut out = Color::new(0, 0, 0);
    let c2 = Color::new(fxp(128.0), fxp(0.0), fxp(255.0));
    c2.set_contrast_to(fxp(255.0), &mut out);
    assert_eq!(out.r, fxp(128.0));
    assert_eq!(out.g, 0);
    assert_eq!(out.b, fxp(255.0));
}

#[test]
fn camera_rejects_degenerate_setups() {
    let mut cam = Camera::new();
    let p = Vec3::new(fxp(1.0), fxp(2.0), fxp(3.0));
    // eye on the target: no view direction
    assert_eq!(cam.look_at_ortho(&p, &p), Err(ConfigError::DegenerateBasis));
    // view direction parallel to the world up reference
    let above = Vec3::new(0, fxp(5.0), 0);
    let origin = Vec3::new_empty();
    assert_eq!(cam.look_at_perspective(&above, &origin), Err(ConfigError::DegenerateBasis));
    // zero-extent frustum
    cam.set_viewport(fxp(1.0), fxp(1.0), fxp(1.0), fxp(-1.0), fxp(1.0), fxp(5.0));
    assert_eq!(cam.to_projection_ortho(), Err(ConfigError::DegenerateViewport));
    assert_eq!(cam.to_projection_perspective(), Err(ConfigError::DegenerateViewport));
    cam.set_viewport(fxp(-1.0), fxp(1.0), fxp(1.0), fxp(-1.0), fxp(2.0), fxp(2.0));
    assert_eq!(cam.to_projection_perspective_(), Err(ConfigError::DegenerateViewport));
    assert_eq!(cam.to_projection_ortho2(), Err(ConfigError::DegenerateViewport));
    // a sound setup succeeds
    let eye = Vec3::new(0, 0, fxp(2.0));
    let mut ok = Camera::new();
    assert_eq!(
        ok.to_perspective(&eye, &origin, fxp(-1.0), fxp(1.0), fxp(1.0), fxp(-1.0), fxp(1.0), fxp(5.0)),
        Ok(())
    );
}

#[test]
fn invert_filter_flips_every_color() {
    let mut t = Texture::new(4, 4);
    let f = InvertFilter {};
    f.filter(&mut t);
    for c in &t.buffer {
        assert_eq!(*c, white());
    }
    f.filter(&mut t);
    for c in &t.buffer {
        assert_eq!(*c, black());
    }
}

/// On a two-by-two grid every box neighborhood is the whole grid, so a
/// uniform texture is a fixed point of the mean and the factor scales it.
#[test]
fn arithmetic_box_filter_averages() {
    let mut t = Texture::new(2, 2);
    for c in &mut t.buffer {
        *c = Color::new(fxp(40.0), fxp(80.0), fxp(120.0));
    }
    let unit = ArithmeticBoxFilter::new(1, FX_ONE);
    unit.filter(&mut t);
    for c in &t.buffer {
        assert_eq!(*c, Color::new(fxp(40.0), fxp(80.0), fxp(120.0)));
    }
    let double = ArithmeticBoxFilter::new(1, fxp(2.0));
    double.filter(&mut t);
    for c in &t.buffer {
        assert_eq!(*c, Color::new(fxp(80.0), fxp(160.0), fxp(240.0)));
    }
}

#[test]
fn builder_counts_and_colors() {
    let center = Vec3::new_empty();
    let cube = MeshBuilder::cube(&center, fxp(1.0));
    assert_eq!(cube.shapes.len(), 12);
    let block = MeshBuilder::block(&center, fxp(1.0), fxp(2.0), fxp(3.0), 1, 2, 3);
    assert_eq!(block.shapes.len(), 1 * 2 * 4 + 2 * 3 * 4 + 3 * 1 * 4);
    let grid = MeshBuilder::raster(fxp(6.0));
    assert_eq!(grid.shapes.len(), 22);
    assert_eq!(grid.shapes[0].vertices[0].color, grey());
    let lattice = MeshBuilder::point_raster();
    assert_eq!(lattice.shapes.len(), 21 * 21 * 21);
    let quad = MeshBuilder::quad(
        &Vec3::new(0, 0, 0),
        &Vec3::new(fxp(1.0), 0, 0),
        &Vec3::new(0, fxp(1.0), 0),
        &Vec3::new(fxp(1.0), fxp(1.0), 0),
    );
    assert_eq!(quad.shapes[1].vertices[2].color, Color::new(FX_ONE, FX_ONE, FX_ONE));
    let tri_scene = SceneBuilder::triangle();
    assert_eq!(tri_scene.meshes.len(), 1);
    let tex_scene = SceneBuilder::texture_test();
    assert_eq!(tex_scene.meshes[0].shapes.len(), 12);
    for s in &tex_scene.meshes[0].shapes {
        assert_eq!(s.tex_id, 0);
    }
    let grid_scene = SceneBuilder::raster(fxp(6.0));
    assert_eq!(grid_scene.meshes[0].shapes.len(), 22);
    let lattice_scene = SceneBuilder::point_raster();
    assert_eq!(lattice_scene.meshes[0].shapes.len(), 9261);
}

/// A textured triangle samples the first texture by nearest neighbor instead
/// of interpolating vertex colors.
#[test]
fn textured_triangle_samples_texture() {
    let mut t = Texture::new(512, 512);
    for c in &mut t.buffer {
        *c = Color::new(0, fxp(200.0), fxp(100.0));
    }
    let mut renderer = base_renderer(8, 8, &black(), 1);
    renderer.texture.push(t);
    let lb = Vec3::new(fxp(-1.0), fxp(-1.0), 0);
    let rb = Vec3::new(fxp(1.0), fxp(-1.0), 0);
    let lt = Vec3::new(fxp(-1.0), fxp(1.0), 0);
    let mut tri = MeshBuilder::triangle(&lb, &rb, &lt);
    tri.shapes[0].tex_id = 0;
    for v in &mut tri.shapes[0].vertices {
        v.tex_coord = softrast::vec::Vec2::new(fxp(0.5), fxp(0.5));
    }
    renderer.render_mesh(&tri);
    let bytes = renderer.fb_pixels();
    assert_eq!(pixel(&bytes, 8, 1, 6), (0, 200, 100));
    assert_eq!(pixel(&bytes, 8, 7, 0), (0, 0, 0));
}

#[test]
fn degenerate_primitives_are_skipped() {
    // a zero-area triangle leaves the frame untouched
    let mut renderer = base_renderer(8, 8, &black(), 1);
    let p = Vec3::new(fxp(0.1), fxp(0.1), 0);
    let tri = MeshBuilder::triangle(&p, &p, &p);
    renderer.render_mesh(&tri);
    for v in renderer.fb_pixels() {
        assert_eq!(v, 0);
    }
    // a zero-length line as well
    let line = MeshBuilder::line(&p, &p);
    renderer.render_mesh(&line);
    for v in renderer.fb_pixels() {
        assert_eq!(v, 0);
    }
    // a shape with an unknown vertex count is ignored
    let empty = Shape::new(0);
    renderer.render_shape(&empty);
    for v in renderer.fb_pixels() {
        assert_eq!(v, 0);
    }
}
