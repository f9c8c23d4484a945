use raytracer::fixed::{Fx, FRAC};
use raytracer::material::{Color, Material};
use raytracer::object::{Object, Polygon};
use raytracer::ray::Ray;
use raytracer::scene::{make_env, Env};
use raytracer::shape::{Mesh, Shape};
use raytracer::transform::Transform;
use raytracer::vec3::Vec3;

fn fxi(v: i32) -> Fx {
    Fx::from_int(v)
}

fn v3(x: i32, y: i32, z: i32) -> Vec3 {
    Vec3::new(fxi(x), fxi(y), fxi(z))
}

fn triangle_object() -> Object {
    let points = vec![v3(-1, -1, -5), v3(1, -1, -5), v3(0, 1, -5)];
    let normals = vec![v3(0, 0, 1), v3(0, 0, 1), v3(0, 0, 1)];
    let mut obj = Object::new();
    obj.push_polygon(Polygon::new(points, normals));
    obj
}

#[test]
fn triangle_is_hit_through_its_interior() {
    let shape = Shape::try_new(
        Material::Simple { color: Color::new(255, 255, 255) },
        Transform::default(),
        Mesh::Polygons { obj: triangle_object() },
    )
    .unwrap();
    let ray = Ray::new(v3(0, 0, 0), v3(0, 0, -1));
    let hit = shape.intersect(ray).expect("ray through the triangle must hit");
    assert_eq!(hit.t.raw, 5 * FRAC);
    assert_eq!(hit.pos.z.raw, -5 * FRAC);
    assert_eq!(hit.normal.z.raw, FRAC);
    // Outside the edges the same plane is a miss.
    let outside = Ray::new(v3(5, 5, 0), v3(0, 0, -1));
    assert!(shape.intersect(outside).is_none());
}

#[test]
fn default_scene_builds_and_has_the_floor() {
    let scene = make_env(Env::Default).expect("the built-in scene must build");
    // Straight down from high above, away from the shapes: the checkered floor.
    let ray = Ray::new(v3(30, 5, 0), v3(0, -1, 0));
    let hit = scene.intersect(ray).expect("the floor spans every column");
    assert_eq!(hit.pos.y.raw, -2 * FRAC);
}

#[test]
fn teapot_scene_builds_with_a_loaded_object() {
    let scene = make_env(Env::Teapot { obj: triangle_object() });
    assert!(scene.is_some());
}

#[test]
fn empty_object_builds_an_empty_mesh() {
    let obj = Object::new();
    assert_eq!(obj.polygons.len(), 0);
    let shape = Shape::try_new(
        Material::Simple { color: Color::new(1, 2, 3) },
        Transform::default(),
        Mesh::Polygons { obj },
    )
    .unwrap();
    assert!(shape.intersect(Ray::new(v3(0, 0, 0), v3(0, 0, -1))).is_none());
}

#[test]
fn polygon_edges_are_derived_from_corners() {
    let p = Polygon::new(
        vec![v3(0, 0, 0), v3(2, 0, 0), v3(1, 2, 0)],
        vec![v3(0, 0, 1), v3(0, 0, 1), v3(0, 0, 1)],
    );
    assert_eq!(p.e1, v3(2, 0, 0));
    assert_eq!(p.e2, v3(1, 2, 0));
    // The cached face normal is the cross product of the edges.
    assert_eq!(p.polygon_normal.z.raw, 4 * FRAC);
}
