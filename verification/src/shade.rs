use vstd::prelude::*;

use crate::fixed::{iabs, Fx, FRAC};
use crate::mat4::Mat4;
use crate::material::{Color, Material};
use crate::ray::Ray;
use crate::shape::{s_intersect, Shape};
use crate::vec3::Vec3;

verus! {

/// The checkerboard lookup: carry the world hit position into the shape's
/// accumulated frame, divide each axis by the cell size, round each to the
/// nearest whole number, and pick by the parity of the three together.
/// A degenerate accumulated frame (zero determinant) cannot be inverted;
/// the first color stands in for that corner case.
pub open spec fn s_checker_color(
    color1: Color,
    color2: Color,
    scale: Fx,
    frame: Mat4,
    world_pos: Vec3,
) -> Color {
    if frame.s_det().raw == 0 {
        color1
    } else {
        let local = frame.s_inv().s_point(world_pos);
        let rx = local.x.s_div(scale).s_round();
        let ry = local.y.s_div(scale).s_round();
        let rz = local.z.s_div(scale).s_round();
        if iabs(rx + ry + rz) % 2 == 0 {
            color1
        } else {
            color2
        }
    }
}

pub fn checker_color(color1: Color, color2: Color, scale: Fx, frame: &Mat4, world_pos: Vec3) -> (c:
    Color)
    requires
        scale.wf(),
        scale.raw != 0,
        frame.wf(),
        world_pos.wf(),
    ensures
        c == s_checker_color(color1, color2, scale, *frame, world_pos),
{
    let det = frame.determinant();
    if det.raw == 0 {
        color1
    } else {
        let inv = match frame.invert() {
            Some(m) => m,
            None => {
                proof {
                    assert(false);
                }
                Mat4::identity()
            },
        };
        let local = inv.point(world_pos);
        let rx = local.x.div(scale).round();
        let ry = local.y.div(scale).round();
        let rz = local.z.div(scale).round();
        let total: i64 = rx + ry + rz;
        let mag: u64 = if total < 0 {
            (-total) as u64
        } else {
            total as u64
        };
        if mag % 2 == 0 {
            color1
        } else {
            color2
        }
    }
}

/// One channel under Lambert light: the byte scaled by an intensity in
/// the unit interval, truncated.
pub open spec fn s_lit_channel(c: u8, intensity: Fx) -> u8 {
    ((c * intensity.raw) / (FRAC as int)) as u8
}

pub fn lit_channel(c: u8, intensity: Fx) -> (r: u8)
    requires
        0 <= intensity.raw <= FRAC,
    ensures
        r == s_lit_channel(c, intensity),
        r <= c,
{
    proof {
        assert(c * intensity.raw <= 255 * 65536) by (nonlinear_arith)
            requires
                0 <= c <= 255,
                0 <= intensity.raw <= 65536,
        ;
        assert(c * intensity.raw <= c * 65536) by (nonlinear_arith)
            requires
                0 <= c,
                0 <= intensity.raw <= 65536,
        ;
    }
    let wide: u64 = (c as u64) * (intensity.raw as u64);
    let q: u64 = wide / (FRAC as u64);
    proof {
        vstd::arithmetic::div_mod::lemma_div_is_ordered(wide as int, c * 65536, 65536);
        vstd::arithmetic::div_mod::lemma_div_by_multiple(c as int, 65536);
    }
    q as u8
}

/// The color a material shows at a hit.
pub open spec fn s_material_color(material: Material, frame: Mat4, world_pos: Vec3) -> Color {
    match material {
        Material::Simple { color } => color,
        Material::Checkerboard { color1, color2, scale } => s_checker_color(
            color1,
            color2,
            scale,
            frame,
            world_pos,
        ),
    }
}

/// The offset that lifts a shadow ray off the surface it starts on.
pub open spec fn s_shadow_origin(pos: Vec3, to_sun: Vec3) -> Vec3 {
    pos.s_add(to_sun.s_scale(Fx { raw: 1 }))
}

/// The full shading rule for one camera ray. A miss keeps the background
/// black; a hit whose path to the light is blocked stays black too;
/// otherwise the material color is scaled by the Lambert factor, the
/// clamped cosine between surface normal and light direction.
pub open spec fn s_shade(scene: Shape, ray: Ray, to_sun: Vec3) -> Color {
    match s_intersect(scene, ray) {
        Option::None => Color { r: 0, g: 0, b: 0 },
        Option::Some(info) => {
            let shadow_ray = Ray { pos: s_shadow_origin(info.pos, to_sun), dir: to_sun };
            match s_intersect(scene, shadow_ray) {
                Option::Some(_) => Color { r: 0, g: 0, b: 0 },
                Option::None => {
                    let intensity = info.normal.s_cos_angle(to_sun).s_clamp01();
                    let color = s_material_color(info.material, info.local_frame, info.pos);
                    Color {
                        r: s_lit_channel(color.r, intensity),
                        g: s_lit_channel(color.g, intensity),
                        b: s_lit_channel(color.b, intensity),
                    }
                },
            }
        },
    }
}

pub fn shade(scene: &Shape, ray: Ray, to_sun: Vec3) -> (c: Color)
    requires
        scene.wf(),
        ray.wf(),
        to_sun.wf(),
    ensures
        c == s_shade(*scene, ray, to_sun),
{
    match scene.intersect(ray) {
        None => Color { r: 0, g: 0, b: 0 },
        Some(info) => {
            let sun_ray = Ray {
                pos: info.pos.add(to_sun.scale(Fx { raw: 1 })),
                dir: to_sun,
            };
            match scene.intersect(sun_ray) {
                Some(_blocker) => Color { r: 0, g: 0, b: 0 },
                None => {
                    let intensity = info.normal.cos_angle(to_sun).clamp01();
                    let color = match info.material {
                        Material::Simple { color } => color,
                        Material::Checkerboard { color1, color2, scale } => checker_color(
                            color1,
                            color2,
                            scale,
                            &info.local_frame,
                            info.pos,
                        ),
                    };
                    Color {
                        r: lit_channel(color.r, intensity),
                        g: lit_channel(color.g, intensity),
                        b: lit_channel(color.b, intensity),
                    }
                },
            }
        },
    }
}

} // verus!
