//! The primitive constructors: vertex counts, positions and default colors.

use softrast::color::{lime, red, white, blue};
use softrast::shape::Shape;
use softrast::vec::Vec3;

fn fxs(v: f64) -> i64 {
    (v * 4294967296.0_f64).round() as i64
}

#[test]
fn point() {
    let vec: Vec3 = Vec3::new(fxs(1.), fxs(2.), fxs(3.));
    let shape: Shape = Shape::new_point(&vec);
    assert_eq!(shape.vertices.len() == 1, true);
    assert_eq!(shape.vertices[0].vec == vec, true);
    assert_eq!(shape.vertices[0].color == red(), true);
}

#[test]
fn line() {
    let vec: Vec3 = Vec3::new(fxs(1.), fxs(2.), fxs(3.));
    let vec2: Vec3 = Vec3::new(fxs(2.), fxs(3.), fxs(4.));
    let shape: Shape = Shape::new_line(&vec, &vec2);
    assert_eq!(shape.vertices.len() == 2, true);
    assert_eq!(shape.vertices[0].vec == vec, true);
    assert_eq!(shape.vertices[0].color == red(), true);
    assert_eq!(shape.vertices[1].vec == vec2, true);
    assert_eq!(shape.vertices[1].color == lime(), true);
}

#[test]
fn triangle() {
    let vec: Vec3 = Vec3::new(fxs(1.), fxs(2.), fxs(3.));
    let vec2: Vec3 = Vec3::new(fxs(2.), fxs(3.), fxs(4.));
    let vec3: Vec3 = Vec3::new(fxs(4.), fxs(5.), fxs(6.));
    let shape: Shape = Shape::new_triangle(&vec, &vec2, &vec3);
    assert_eq!(shape.vertices.len() == 3, true);
    assert_eq!(shape.vertices[0].vec == vec, true);
    assert_eq!(shape.vertices[0].color == red(), true);
    assert_eq!(shape.vertices[1].vec == vec2, true);
    assert_eq!(shape.vertices[1].color == white(), true);
    assert_eq!(shape.vertices[2].vec == vec3, true);
    assert_eq!(shape.vertices[2].color == blue(), true);
}
