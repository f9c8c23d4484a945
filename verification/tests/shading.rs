use raytracer::fixed::{Fx, FRAC};
use raytracer::material::{Color, Material};
use raytracer::mat4::Mat4;
use raytracer::ray::Ray;
use raytracer::render::{render_pixel, render_stripe, assemble_image, valid_layout, RenderParams};
use raytracer::shade::{checker_color, shade};
use raytracer::shape::{Mesh, Shape};
use raytracer::transform::Transform;
use raytracer::vec3::Vec3;

fn fxi(v: i32) -> Fx {
    Fx::from_int(v)
}

fn v3(x: i32, y: i32, z: i32) -> Vec3 {
    Vec3::new(fxi(x), fxi(y), fxi(z))
}

fn red_sphere_scene() -> Shape {
    Shape::try_new(
        Material::Simple { color: Color::new(255, 0, 0) },
        Transform::default(),
        Mesh::Sphere { radius: Fx::one() },
    )
    .unwrap()
}

#[test]
fn checkerboard_cells_differ_across_a_boundary() {
    let c1 = Color::new(255, 255, 255);
    let c2 = Color::new(127, 127, 127);
    let id = Mat4::identity();
    // 0.4 rounds to cell 0 on each axis; the sum 0 is even.
    let p_near = Vec3::new(Fx::from_raw(26214), Fx::zero(), Fx::from_raw(26214));
    // 1.4 rounds to cell 1 on the first axis; the sum 1 is odd.
    let p_far = Vec3::new(Fx::from_raw(91750), Fx::zero(), Fx::from_raw(26214));
    let a = checker_color(c1, c2, Fx::one(), &id, p_near);
    let b = checker_color(c1, c2, Fx::one(), &id, p_far);
    assert_eq!(a, c1);
    assert_eq!(b, c2);
    assert_ne!(a, b);
}

#[test]
fn occluded_surface_point_is_unlit() {
    // A plane two units down, a unit sphere hanging over the origin.
    let plane = Shape::try_new(
        Material::Simple { color: Color::new(255, 255, 255) },
        Transform::from_t(v3(0, -2, 0)),
        Mesh::InfinitePlane,
    )
    .unwrap();
    let ball = red_sphere_scene();
    let scene = Shape::try_new(
        Material::Simple { color: Color::new(0, 0, 0) },
        Transform::default(),
        Mesh::CompositeShape { shapes: vec![plane, ball] },
    )
    .unwrap();
    let to_sun = v3(0, 1, 0);
    // Straight down under the sphere: the light is blocked, the pixel stays black.
    let shadowed = Ray::new(
        Vec3::new(Fx::zero(), Fx::from_raw(-3 * FRAC / 2), Fx::zero()),
        v3(0, -1, 0),
    );
    assert_eq!(shade(&scene, shadowed, to_sun), Color::black());
    // Far off to the side nothing blocks the light and the plane shows white.
    let open = Ray::new(
        Vec3::new(fxi(50), Fx::from_raw(-3 * FRAC / 2), Fx::zero()),
        v3(0, -1, 0),
    );
    let lit = shade(&scene, open, to_sun);
    assert_eq!(lit, Color::new(255, 255, 255));
}

#[test]
fn missing_everything_keeps_the_background() {
    let scene = red_sphere_scene();
    let ray = Ray::new(v3(0, 5, 0), v3(0, 1, 0));
    assert_eq!(shade(&scene, ray, v3(1, 3, 2)), Color::black());
}

#[test]
fn center_pixel_is_lit_red_and_silhouette_edge_is_background() {
    let scene = red_sphere_scene();
    let p = RenderParams {
        width: 303,
        height: 101,
        camera_center: v3(0, 0, 2),
        to_sun: v3(1, 3, 2),
    };
    let jit = vec![(FRAC / 2, FRAC / 2)];
    // The center pixel looks straight at the sphere and shows lit red.
    let center = render_pixel(&scene, &p, 151, 50, &jit);
    assert!(center.r > 100 && center.r < 170, "red channel was {}", center.r);
    assert_eq!(center.g, 0);
    assert_eq!(center.b, 0);
    // A pixel far outside the silhouette stays at the background.
    let edge = render_pixel(&scene, &p, 0, 50, &jit);
    assert_eq!(edge, Color::black());
}

#[test]
fn stripe_of_an_empty_scene_is_all_background() {
    let scene = Shape::try_new(
        Material::Simple { color: Color::new(9, 9, 9) },
        Transform::default(),
        Mesh::CompositeShape { shapes: vec![] },
    )
    .unwrap();
    let p = RenderParams {
        width: 4,
        height: 4,
        camera_center: v3(0, 0, 1),
        to_sun: v3(1, 3, 2),
    };
    let (buf, _) = render_stripe(&scene, &p, 1, 2, 3);
    assert_eq!(buf.len(), 8);
    for c in buf.iter() {
        assert_eq!(*c, Color::black());
    }
}

#[test]
fn assembled_image_is_row_major_across_stripes() {
    let a = Color::new(1, 0, 0);
    let b = Color::new(2, 0, 0);
    let c = Color::new(3, 0, 0);
    let d = Color::new(4, 0, 0);
    // Two stripes of width one and height two, column-major each.
    let stripes = vec![vec![a, b], vec![c, d]];
    let img = assemble_image(&stripes, 2, 2, 2);
    assert_eq!(img, vec![a, c, b, d]);
}

#[test]
fn layout_requires_an_even_split() {
    assert!(valid_layout(1280, 16));
    assert!(!valid_layout(1280, 7));
    assert!(!valid_layout(1280, 0));
}
