//! The rendering pipeline end to end: points, lines, triangles, quads and
//! cubes through the orthographic and perspective cameras, with and without
//! supersampling. Each test renders and then resolves both image streams,
//! checking the encoded sizes.

use softrast::color::{black, Color};
use softrast::mat::Mat3;
use softrast::mesh::{Mesh, MeshBuilder};
use softrast::renderer::Renderer;
use softrast::vec::Vec3;

fn fxr(v: f64) -> i64 {
    (v * 4294967296.0_f64).round() as i64
}

fn rot_x(deg: f64) -> Mat3 {
    let r = deg.to_radians();
    let (s, c) = (r.sin(), r.cos());
    Mat3::new(fxr(1.), 0, 0, 0, fxr(c), fxr(-s), 0, fxr(s), fxr(c))
}

fn rot_z(deg: f64) -> Mat3 {
    let r = deg.to_radians();
    let (s, c) = (r.sin(), r.cos());
    Mat3::new(fxr(c), fxr(-s), 0, fxr(s), fxr(c), 0, 0, 0, fxr(1.))
}

fn create_renderer(
    width: usize,
    height: usize,
    from: &Vec3,
    to: &Vec3,
    zoom: f64,
    left: f64,
    right: f64,
    top: f64,
    bottom: f64,
    near: f64,
    far: f64,
    bgcolor: &Color,
    samplestep: usize,
) -> Renderer {
    let mut renderer: Renderer = Renderer::new(width, height, bgcolor, samplestep);
    renderer
        .camera
        .to_ortho(
            from,
            to,
            fxr(zoom * left),
            fxr(zoom * right),
            fxr(zoom * top),
            fxr(zoom * bottom),
            fxr(near),
            fxr(far),
        )
        .unwrap();
    renderer
}

fn create_test_base_renderer(samplestep: usize) -> Renderer {
    let from: Vec3 = Vec3::new(0, 0, fxr(1.0));
    let to: Vec3 = Vec3::new_empty();
    create_renderer(
        512, 512, &from, &to, 0.5, -2.0, 2.0, 2.0, -2.0, 1.0, 5.0, &black(), samplestep,
    )
}

fn create_renderer_perspective(
    width: usize,
    height: usize,
    from: &Vec3,
    to: &Vec3,
    zoom: f64,
    left: f64,
    right: f64,
    top: f64,
    bottom: f64,
    near: f64,
    far: f64,
    bgcolor: &Color,
    samplestep: usize,
) -> Renderer {
    let mut renderer: Renderer = Renderer::new(width, height, bgcolor, samplestep);
    renderer
        .camera
        .to_perspective(
            from,
            to,
            fxr(zoom * left),
            fxr(zoom * right),
            fxr(zoom * top),
            fxr(zoom * bottom),
            fxr(near),
            fxr(far),
        )
        .unwrap();
    renderer
}

fn create_test_base_renderer_perspective(samplestep: usize) -> Renderer {
    let from: Vec3 = Vec3::new(0, 0, fxr(2.5));
    let to: Vec3 = Vec3::new_empty();
    create_renderer_perspective(
        512, 512, &from, &to, 1.0, -2.0, 2.0, 2.0, -2.0, 1.0, 5.0, &black(), samplestep,
    )
}

/// Resolve both image streams in place of the file output of an interactive
/// run, checking the encoded sizes.
fn check_output(renderer: &Renderer) {
    let fb = renderer.fb_ppm_bytes();
    let zb = renderer.zb_ppm_bytes();
    let header = format!("P6\n{} {}\n255\n", renderer.img_width, renderer.img_height);
    assert_eq!(&fb[..header.len()], header.as_bytes());
    assert_eq!(fb.len(), header.len() + 3 * renderer.img_width * renderer.img_height);
    assert_eq!(zb.len(), fb.len());
}

fn point_mesh() -> Mesh {
    let p: Vec3 = Vec3 { x: 0, y: 0, z: fxr(0.001) };
    MeshBuilder::point(&p)
}

#[test]
fn point_ortho() {
    let points: Mesh = point_mesh();
    let mut renderer: Renderer = create_test_base_renderer(1);
    renderer.render_mesh(&points);
    check_output(&renderer);
}

#[test]
fn point_perspective() {
    let points: Mesh = point_mesh();
    let mut renderer: Renderer = create_test_base_renderer_perspective(1);
    renderer.render_mesh(&points);
    check_output(&renderer);
}

#[test]
fn point_ortho_msaa2x2() {
    let points: Mesh = point_mesh();
    let mut renderer: Renderer = create_test_base_renderer(2);
    renderer.render_mesh(&points);
    check_output(&renderer);
}

#[test]
fn point_perspective_msaa2x2() {
    let points: Mesh = point_mesh();
    let mut renderer: Renderer = create_test_base_renderer_perspective(2);
    renderer.render_mesh(&points);
    check_output(&renderer);
}

#[test]
fn point_ortho_msaa4x4() {
    let points: Mesh = point_mesh();
    let mut renderer: Renderer = create_test_base_renderer(4);
    renderer.render_mesh(&points);
    check_output(&renderer);
}

#[test]
fn point_perspective_msaa4x4() {
    let points: Mesh = point_mesh();
    let mut renderer: Renderer = create_test_base_renderer_perspective(4);
    renderer.render_mesh(&points);
    check_output(&renderer);
}

fn line_mesh() -> Mesh {
    let p: Vec3 = Vec3::new(fxr(-1.0), fxr(-1.0), 0);
    let p2: Vec3 = Vec3::new(fxr(-0.8), fxr(1.0), 0);
    MeshBuilder::line(&p, &p2)
}

/// The swept-line scene of the interactive runs: the end point walks by a
/// growing step while the line renders twenty times.
fn render_line_sweep(renderer: &mut Renderer) {
    let mut line: Mesh = line_mesh();
    let mut step: f64 = 0.0;
    for _i in 0..20 {
        let mut shape = line.shapes.remove(0);
        let mut end = shape.vertices[1];
        end.vec.x = end.vec.x.saturating_add(fxr(step));
        end.vec.y = end.vec.y.saturating_sub(fxr(step));
        end.vec.z = end.vec.z.saturating_add(fxr(step));
        shape.vertices[1] = end;
        line.shapes.insert(0, shape);
        renderer.render_mesh(&line);
        step += 0.05;
    }
}

#[test]
fn test_render_lines_ortho_nomsaa() {
    let mut renderer: Renderer = create_test_base_renderer(1);
    render_line_sweep(&mut renderer);
    check_output(&renderer);
}

#[test]
fn test_render_lines_perspective_nomsaa() {
    let mut renderer: Renderer = create_test_base_renderer_perspective(1);
    render_line_sweep(&mut renderer);
    check_output(&renderer);
}

#[test]
fn test_render_lines_ortho_msaa2x2() {
    let mut renderer: Renderer = create_test_base_renderer(2);
    render_line_sweep(&mut renderer);
    check_output(&renderer);
}

#[test]
fn test_render_lines_perspective_msaa2x2() {
    let mut renderer: Renderer = create_test_base_renderer_perspective(2);
    render_line_sweep(&mut renderer);
    check_output(&renderer);
}

#[test]
fn test_render_lines_ortho_msaa4x4() {
    let mut renderer: Renderer = create_test_base_renderer(4);
    render_line_sweep(&mut renderer);
    check_output(&renderer);
}

#[test]
fn test_render_lines_perspective_msaa4x4() {
    let mut renderer: Renderer = create_test_base_renderer_perspective(4);
    render_line_sweep(&mut renderer);
    check_output(&renderer);
}

fn triangle_mesh_ortho() -> Mesh {
    let p1: Vec3 = Vec3 { x: fxr(-0.75), y: fxr(-0.75), z: fxr(0.75) };
    let p2: Vec3 = Vec3 { x: fxr(0.75), y: fxr(-0.55), z: fxr(0.25) };
    let p3: Vec3 = Vec3 { x: fxr(0.05), y: fxr(0.75), z: fxr(-0.75) };
    MeshBuilder::triangle(&p1, &p2, &p3)
}

#[test]
fn test_render_triangle_orthogonal_nomsaa() {
    let triangle: Mesh = triangle_mesh_ortho();
    let mut renderer: Renderer = create_test_base_renderer(1);
    renderer.render_mesh(&triangle);
    check_output(&renderer);
}

#[test]
fn test_render_triangle_orthogonal_msaa2x2() {
    let triangle: Mesh = triangle_mesh_ortho();
    let mut renderer: Renderer = create_test_base_renderer(2);
    renderer.render_mesh(&triangle);
    check_output(&renderer);
}

#[test]
fn test_render_triangle_orthogonal_msaa4x4() {
    let triangle: Mesh = triangle_mesh_ortho();
    let mut renderer: Renderer = create_test_base_renderer(4);
    renderer.render_mesh(&triangle);
    check_output(&renderer);
}

#[test]
fn test_render_triangle_perspective_nomsaa() {
    let p1: Vec3 = Vec3 { x: fxr(-0.75), y: fxr(-0.75), z: fxr(0.55) };
    let p2: Vec3 = Vec3 { x: fxr(0.75), y: fxr(-0.55), z: fxr(0.25) };
    let p3: Vec3 = Vec3 { x: fxr(0.05), y: fxr(0.75), z: fxr(-0.75) };
    let triangle: Mesh = MeshBuilder::triangle(&p1, &p2, &p3);
    let mut renderer: Renderer = create_test_base_renderer_perspective(1);
    renderer.render_mesh(&triangle);
    check_output(&renderer);
}

#[test]
fn test_render_triangle_perspective_msaa2x2() {
    let triangle: Mesh = triangle_mesh_ortho();
    let mut renderer: Renderer = create_test_base_renderer_perspective(2);
    renderer.render_mesh(&triangle);
    check_output(&renderer);
}

#[test]
fn test_render_triangle_perspective_msaa4x4() {
    let triangle: Mesh = triangle_mesh_ortho();
    let mut renderer: Renderer = create_test_base_renderer_perspective(4);
    renderer.render_mesh(&triangle);
    check_output(&renderer);
}

fn quad_mesh() -> Mesh {
    let p1: Vec3 = Vec3 { x: fxr(-0.75), y: fxr(-0.75), z: fxr(0.75) };
    let p2: Vec3 = Vec3 { x: fxr(0.75), y: fxr(-0.75), z: fxr(0.75) };
    let p3: Vec3 = Vec3 { x: fxr(-0.75), y: fxr(0.75), z: fxr(0.75) };
    let p4: Vec3 = Vec3 { x: fxr(0.75), y: fxr(0.75), z: fxr(0.75) };
    MeshBuilder::quad(&p1, &p2, &p3, &p4)
}

#[test]
fn test_render_quad_orthogonal_nomsaa() {
    let quad: Mesh = quad_mesh();
    let mut renderer: Renderer = create_test_base_renderer(1);
    renderer.render_mesh(&quad);
    check_output(&renderer);
}

#[test]
fn test_render_quad_orthogonal_msaa2x2() {
    let quad: Mesh = quad_mesh();
    let mut renderer: Renderer = create_test_base_renderer(2);
    renderer.render_mesh(&quad);
    check_output(&renderer);
}

#[test]
fn test_render_quad_orthogonal_msaa4x4() {
    let quad: Mesh = quad_mesh();
    let mut renderer: Renderer = create_test_base_renderer(4);
    renderer.render_mesh(&quad);
    check_output(&renderer);
}

#[test]
fn test_render_quad_perspective_nomsaa() {
    let quad: Mesh = quad_mesh();
    let mut renderer: Renderer = create_test_base_renderer_perspective(1);
    renderer.render_mesh(&quad);
    check_output(&renderer);
}

#[test]
fn test_render_quad_perspective_msaa2x2() {
    let quad: Mesh = quad_mesh();
    let mut renderer: Renderer = create_test_base_renderer_perspective(2);
    renderer.render_mesh(&quad);
    check_output(&renderer);
}

#[test]
fn test_render_quad_perspective_msaa4x4() {
    let quad: Mesh = quad_mesh();
    let mut renderer: Renderer = create_test_base_renderer_perspective(4);
    renderer.render_mesh(&quad);
    check_output(&renderer);
}

#[test]
fn test_render_cube_orthogonal_nomsaa() {
    let center: Vec3 = Vec3 { x: 0, y: 0, z: 0 };
    let mut cube: Mesh = MeshBuilder::cube(&center, fxr(1.0));
    let mut renderer: Renderer = create_test_base_renderer(1);
    renderer.render_mesh(&cube);
    check_output(&renderer);

    let rotmat = rot_z(45.).times(&rot_x(45.));
    cube.transform(&rotmat);
    renderer.clear_frame();
    renderer.render_mesh(&cube);
    check_output(&renderer);

    let rotmat = rot_z(65.).times(&rot_x(45.));
    cube.transform(&rotmat);
    renderer.clear_frame();
    renderer.render_mesh(&cube);
    check_output(&renderer);
}

#[test]
fn test_render_cube_perspective_nomsaa() {
    let center: Vec3 = Vec3 { x: 0, y: 0, z: 0 };
    let mut cube: Mesh = MeshBuilder::cube(&center, fxr(0.3));
    let mut renderer: Renderer = create_test_base_renderer_perspective(1);
    renderer.render_mesh(&cube);
    check_output(&renderer);

    let rotmat = rot_z(45.).times(&rot_x(45.));
    cube.transform(&rotmat);
    renderer.clear_frame();
    renderer.render_mesh(&cube);
    check_output(&renderer);

    let rotmat = rot_z(65.).times(&rot_x(45.));
    cube.transform(&rotmat);
    renderer.clear_frame();
    renderer.render_mesh(&cube);
    check_output(&renderer);
}
