use raytracer::fixed::{Fx, FRAC, LIM};
use raytracer::material::{Color, Material};
use raytracer::mat4::Mat4;
use raytracer::ray::Ray;
use raytracer::shape::{Mesh, Shape};
use raytracer::transform::Transform;
use raytracer::vec3::Vec3;

fn fxi(v: i32) -> Fx {
    Fx::from_int(v)
}

fn v3(x: i32, y: i32, z: i32) -> Vec3 {
    Vec3::new(fxi(x), fxi(y), fxi(z))
}

fn red() -> Material {
    Material::Simple { color: Color::new(255, 0, 0) }
}

fn unit_sphere(material: Material) -> Shape {
    Shape::try_new(material, Transform::default(), Mesh::Sphere { radius: Fx::one() }).unwrap()
}

#[test]
fn sphere_axis_ray_hits_at_radius() {
    let s = unit_sphere(red());
    let ray = Ray::new(v3(-5, 0, 0), v3(1, 0, 0));
    let hit = s.intersect(ray).expect("ray through the center must hit");
    assert_eq!(hit.t.raw, 4 * FRAC);
    assert_eq!(hit.pos.x.raw, -FRAC);
    assert_eq!(hit.pos.y.raw, 0);
    assert_eq!(hit.pos.z.raw, 0);
    assert_eq!(hit.normal.x.raw, -FRAC);
    assert_eq!(hit.normal.y.raw, 0);
    assert_eq!(hit.normal.z.raw, 0);
}

#[test]
fn sphere_miss_from_inside_and_sideways() {
    let s = unit_sphere(red());
    // A ray that starts at the center leaves the sphere behind its origin only.
    let inside = Ray::new(v3(0, 0, 0), v3(1, 0, 0));
    assert!(s.intersect(inside).is_none());
    // A ray far off to the side misses cleanly.
    let sideways = Ray::new(v3(-5, 3, 0), v3(1, 0, 0));
    assert!(s.intersect(sideways).is_none());
    // A zero direction never hits anything.
    let stuck = Ray::new(v3(-5, 0, 0), v3(0, 0, 0));
    assert!(s.intersect(stuck).is_none());
}

#[test]
fn cube_axis_ray_hits_one_face_with_axis_normal() {
    let c = Shape::try_new(
        red(),
        Transform::default(),
        Mesh::Cube { size: v3(1, 1, 1) },
    )
    .unwrap();
    let ray = Ray::new(v3(-5, 0, 0), v3(1, 0, 0));
    let hit = c.intersect(ray).expect("axis ray into the cube must hit");
    // The facing side sits half a unit from the center: t = 5 - 0.5.
    assert_eq!(hit.t.raw, 4 * FRAC + FRAC / 2);
    assert_eq!(hit.pos.x.raw, -(FRAC / 2));
    assert_eq!(hit.normal.x.raw, -FRAC);
    assert_eq!(hit.normal.y.raw, 0);
    assert_eq!(hit.normal.z.raw, 0);
}

#[test]
fn cube_ray_from_inside_misses() {
    let c = Shape::try_new(
        red(),
        Transform::default(),
        Mesh::Cube { size: v3(2, 2, 2) },
    )
    .unwrap();
    let ray = Ray::new(v3(0, 0, 0), v3(1, 0, 0));
    assert!(c.intersect(ray).is_none());
}

#[test]
fn plane_parallel_ray_misses() {
    let p = Shape::try_new(red(), Transform::default(), Mesh::InfinitePlane).unwrap();
    let ray = Ray::new(v3(0, 1, 0), v3(1, 0, 0));
    assert!(p.intersect(ray).is_none());
}

#[test]
fn plane_crossing_ray_hits_surface() {
    let p = Shape::try_new(red(), Transform::default(), Mesh::InfinitePlane).unwrap();
    let down = Ray::new(v3(0, 1, 0), Vec3::new(Fx::zero(), fxi(-1), Fx::zero()));
    let hit = p.intersect(down).expect("falling ray must hit the plane");
    assert_eq!(hit.t.raw, FRAC);
    assert_eq!(hit.pos.y.raw, 0);
    assert_eq!(hit.normal.y.raw, FRAC);
    // From below, the normal faces down instead.
    let up = Ray::new(v3(0, -1, 0), Vec3::new(Fx::zero(), fxi(1), Fx::zero()));
    let hit2 = p.intersect(up).expect("rising ray must hit the plane");
    assert_eq!(hit2.normal.y.raw, -FRAC);
    // A ray moving away never comes back.
    let away = Ray::new(v3(0, 1, 0), Vec3::new(Fx::zero(), fxi(1), Fx::zero()));
    assert!(p.intersect(away).is_none());
}

#[test]
fn composite_reports_nearest_hit_in_either_order() {
    let near_sphere = || {
        Shape::try_new(
            Material::Simple { color: Color::new(0, 255, 0) },
            Transform::from_t(v3(-2, 0, 0)),
            Mesh::Sphere { radius: Fx::one() },
        )
        .unwrap()
    };
    let scene_ab = Shape::try_new(
        red(),
        Transform::default(),
        Mesh::CompositeShape { shapes: vec![unit_sphere(red()), near_sphere()] },
    )
    .unwrap();
    let scene_ba = Shape::try_new(
        red(),
        Transform::default(),
        Mesh::CompositeShape { shapes: vec![near_sphere(), unit_sphere(red())] },
    )
    .unwrap();
    let ray = Ray::new(v3(-6, 0, 0), v3(1, 0, 0));
    let h1 = scene_ab.intersect(ray).expect("overlapping spheres must be hit");
    let h2 = scene_ba.intersect(ray).expect("overlapping spheres must be hit");
    // The sphere centered at -2 is closer: t = 6 - 2 - 1.
    assert_eq!(h1.t.raw, 3 * FRAC);
    assert_eq!(h2.t.raw, h1.t.raw);
}

#[test]
fn empty_composite_always_misses() {
    let scene = Shape::try_new(
        red(),
        Transform::default(),
        Mesh::CompositeShape { shapes: vec![] },
    )
    .unwrap();
    let ray = Ray::new(v3(-5, 0, 0), v3(1, 0, 0));
    assert!(scene.intersect(ray).is_none());
}

#[test]
fn translated_sphere_is_hit_where_it_stands() {
    let s = Shape::try_new(
        red(),
        Transform::from_t(v3(10, 0, 0)),
        Mesh::Sphere { radius: Fx::one() },
    )
    .unwrap();
    let ray = Ray::new(v3(0, 0, 0), v3(1, 0, 0));
    let hit = s.intersect(ray).expect("translated sphere must be hit");
    assert_eq!(hit.t.raw, 9 * FRAC);
    assert_eq!(hit.pos.x.raw, 9 * FRAC);
}

#[test]
fn transform_round_trip_restores_point() {
    let tr = Transform::from_t(v3(1, 2, 3));
    let m = tr.matrix();
    let mi = match m.invert() {
        Some(mi) => mi,
        None => panic!("a translation is always invertible"),
    };
    let q = v3(5, 6, 7);
    let there = m.point(q);
    let back = mi.point(there);
    assert_eq!(back, q);
    let local = mi.point(q);
    let again = m.point(local);
    assert_eq!(again, q);
}

#[test]
fn singular_transform_is_rejected_at_build_time() {
    let squashed = Transform::from_trs(
        v3(0, 0, 0),
        raytracer::quat::Quat::default(),
        v3(0, 1, 1),
    );
    let r = Shape::try_new(red(), squashed, Mesh::Sphere { radius: Fx::one() });
    assert!(r.is_none());
}

#[test]
fn matrix_identity_facts() {
    let id = Mat4::identity();
    assert_eq!(id.determinant().raw, FRAC);
    let inv = id.invert().expect("the identity is invertible");
    assert_eq!(inv, id);
    let zero = Mat4::zero();
    assert!(zero.invert().is_none());
    let m = Transform::from_t(v3(4, 5, 6)).matrix();
    assert_eq!(m.mul(&id), m);
    assert_eq!(m.transpose().transpose(), m);
}

#[test]
fn scalar_arithmetic_facts() {
    assert_eq!(fxi(3).add(fxi(4)).raw, 7 * FRAC);
    assert_eq!(fxi(3).mul(fxi(4)).raw, 12 * FRAC);
    assert_eq!(fxi(12).div(fxi(4)).raw, 3 * FRAC);
    assert_eq!(fxi(-7).abs().raw, 7 * FRAC);
    assert_eq!(fxi(4).sqrt().raw, 2 * FRAC);
    // Rounding goes to the nearest whole number, halves away from zero.
    assert_eq!(Fx::from_raw(FRAC / 2).round(), 1);
    assert_eq!(Fx::from_raw(-(FRAC / 2)).round(), -1);
    assert_eq!(Fx::from_raw(FRAC / 2 - 1).round(), 0);
    // Saturation instead of overflow at the representable edge.
    assert_eq!(Fx::from_raw(LIM).add(Fx::one()).raw, LIM);
    assert_eq!(Fx::from_raw(-LIM).sub(Fx::one()).raw, -LIM);
    // The zero vector normalizes to itself.
    let z = Vec3::zero();
    assert_eq!(z.normalize(), z);
    // Cosine of the angle between parallel and orthogonal unit vectors.
    assert_eq!(v3(1, 0, 0).cos_angle(v3(1, 0, 0)).raw, FRAC);
    assert_eq!(v3(1, 0, 0).cos_angle(v3(0, 1, 0)).raw, 0);
}
