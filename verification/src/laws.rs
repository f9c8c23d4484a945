use vstd::prelude::*;

use crate::fixed::{
    iabs, lemma_fx_unit, lemma_fx_zero, lemma_round_step, lemma_sqrt_floor_unique,
    lemma_tdiv_exact, lemma_tdiv_mul_exact, sat, tdiv, Fx, FRAC, LIM,
};
use crate::mat3::Mat3;
use crate::mat4::Mat4;
use crate::shade::s_checker_color;
use crate::material::{Color, Material};
use crate::ray::{Intersection, Ray};
use crate::shade::{s_shade, s_shadow_origin};
use crate::shape::{
    s_axis_slab, s_children_hit, s_cube_hit, s_intersect, s_nearest, s_plane_hit, s_slab_and,
    s_sphere_hit, Shape, Slab,
};
use crate::vec3::Vec3;
use crate::transform::Transform;
use crate::quat::Quat;
use crate::vec4::Vec4;

verus! {

/// A ray parallel to the infinite plane never hits it, wherever it starts.
pub proof fn law_plane_parallel_misses(material: Material, ray: Ray)
    requires
        ray.dir.y.raw == 0,
    ensures
        s_plane_hit(material, ray) is None,
{
    reveal(s_plane_hit);
}

/// A ray that is not parallel to the plane and leans toward it (origin
/// height and direction of opposite sign, or starting on the plane) hits
/// it, at the parameter given by the height over the closing speed; the
/// reported normal faces the side the ray came from.
pub proof fn law_plane_crossing_hits(material: Material, ray: Ray)
    requires
        ray.dir.y.raw != 0,
        (ray.pos.y.raw >= 0 && ray.dir.y.raw < 0) || (ray.pos.y.raw <= 0 && ray.dir.y.raw > 0),
        ray.wf(),
    ensures
        s_plane_hit(material, ray) matches Some(h) && h.t == ray.pos.y.s_div(ray.dir.y.s_neg())
            && h.pos == ray.s_at(h.t) && h.material == material,
{
    reveal(s_plane_hit);
    let t = ray.pos.y.s_div(ray.dir.y.s_neg());
    assert(t.raw >= 0);
}

/// Where the plane is hit, the hit point's height is exactly zero,
/// whenever the division comes out even and no coordinate saturates.
pub proof fn law_plane_hit_on_surface(material: Material, ray: Ray)
    requires
        ray.wf(),
        ray.dir.y.raw != 0,
        (ray.pos.y.raw >= 0 && ray.dir.y.raw < 0) || (ray.pos.y.raw <= 0 && ray.dir.y.raw > 0),
        (ray.pos.y.raw * FRAC) % (-ray.dir.y.raw) == 0,
        iabs_le(ray.pos.y.raw * FRAC, LIM * ray.dir.y.raw, LIM * -ray.dir.y.raw),
    ensures
        s_plane_hit(material, ray) matches Some(h) && h.pos.y.raw == 0,
{
    reveal(s_plane_hit);
    let py = ray.pos.y.raw as int;
    let dy = ray.dir.y.raw as int;
    let traw = tdiv(py * FRAC, -dy);
    lemma_tdiv_exact(py * FRAC, -dy);
    assert(traw * (-dy) == py * FRAC);
    assert(iabs_le(py * FRAC, LIM * dy, LIM * -dy));
    assert(-LIM <= traw <= LIM) by (nonlinear_arith)
        requires
            traw * (-dy) == py * FRAC,
            dy != 0,
            (py >= 0 && dy < 0) || (py <= 0 && dy > 0),
            if py * FRAC >= 0 {
                py * FRAC <= LIM * (-dy) || py * FRAC <= LIM * dy
            } else {
                -(py * FRAC) <= LIM * (-dy) || -(py * FRAC) <= LIM * dy
            },
    ;
    let t = ray.pos.y.s_div(ray.dir.y.s_neg());
    assert(t.raw == traw);
    assert(t.raw * dy == -(py * FRAC)) by (nonlinear_arith)
        requires
            t.raw == traw,
            traw * (-dy) == py * FRAC,
    ;
    lemma_tdiv_mul_exact(-py, FRAC as int);
    assert((-py) * FRAC == -(py * FRAC)) by (nonlinear_arith);
    assert(tdiv(t.raw * dy, FRAC as int) == -py);
}

/// Shorthand for "the magnitude of `a` stays under one of the two bounds",
/// which is how the plane law states that its quotient cannot saturate.
pub open spec fn iabs_le(a: int, b1: int, b2: int) -> bool {
    if a >= 0 {
        a <= b2 || a <= b1
    } else {
        -a <= b2 || -a <= b1
    }
}

/// Wherever the sphere solver reports a hit, the surface normal is the
/// normalized hit point, and the hit point lies on the ray at the
/// reported parameter.
pub proof fn law_sphere_normal_is_hit_point(material: Material, radius: Fx, ray: Ray)
    ensures
        s_sphere_hit(material, radius, ray) matches Some(h) ==> h.normal == h.pos.s_normalize()
            && h.pos == ray.s_at(h.t) && h.t.raw >= 0 && h.material == material,
{
    reveal(s_sphere_hit);
}

/// A point whose path toward the light is blocked by any shape gets no
/// light at all, even though the camera sees it.
pub proof fn law_occluded_point_is_unlit(scene: Shape, ray: Ray, to_sun: Vec3)
    requires
        s_intersect(scene, ray) is Some,
        s_intersect(
            scene,
            Ray { pos: s_shadow_origin(s_intersect(scene, ray)->0.pos, to_sun), dir: to_sun },
        ) is Some,
    ensures
        s_shade(scene, ray, to_sun) == (Color { r: 0, g: 0, b: 0 }),
{
}

/// A scene that a ray misses entirely keeps the background color.
pub proof fn law_miss_is_background(scene: Shape, ray: Ray, to_sun: Vec3)
    requires
        s_intersect(scene, ray) is None,
    ensures
        s_shade(scene, ray, to_sun) == (Color { r: 0, g: 0, b: 0 }),
{
}

/// Over a child list, the reported hit is a hit of one of the children,
/// no child hit is nearer, and the list misses exactly when every child
/// misses.
#[verifier::rlimit(100)]
#[verifier::spinoff_prover]
pub proof fn law_children_hit_is_nearest(shapes: Seq<Shape>, ray: Ray)
    ensures
        s_children_hit(shapes, ray) is None <==> forall|i: int|
            0 <= i < shapes.len() ==> #[trigger] s_intersect(shapes[i], ray) is None,
        s_children_hit(shapes, ray) matches Some(h) ==> (exists|i: int|
            0 <= i < shapes.len() && #[trigger] s_intersect(shapes[i], ray) == Some(h)) && forall|
            i: int,
        |
            0 <= i < shapes.len() && #[trigger] s_intersect(shapes[i], ray) is Some ==> h.t.raw
                <= s_intersect(shapes[i], ray)->0.t.raw,
    decreases shapes.len(),
{
    if shapes.len() > 0 {
        let rest = shapes.drop_last();
        law_children_hit_is_nearest(rest, ray);
        assert forall|i: int| 0 <= i < shapes.len() - 1 implies #[trigger] s_intersect(
            shapes[i],
            ray,
        ) == s_intersect(rest[i], ray) by {
            assert(rest[i] == shapes[i]);
        }
        assert forall|i: int| 0 <= i < rest.len() implies #[trigger] s_intersect(rest[i], ray)
            == s_intersect(shapes[i], ray) by {
            assert(rest[i] == shapes[i]);
        }
        assert(shapes.last() == shapes[shapes.len() - 1]);
        assert(s_intersect(shapes[shapes.len() - 1], ray) == s_intersect(shapes.last(), ray));
        let prev = s_children_hit(rest, ray);
        let lasth = s_intersect(shapes.last(), ray);
        assert(s_children_hit(shapes, ray) == s_nearest(prev, lasth));
        if prev is Some {
            let i0 = choose|i: int|
                0 <= i < rest.len() && #[trigger] s_intersect(rest[i], ray) == Some(prev->0);
            assert(s_intersect(shapes[i0], ray) == Some(prev->0));
        }
    }
}

/// Two shapes in a composite can be listed in either order: the composite
/// reports a hit in one order exactly when it does in the other, and the
/// reported hit parameter is the same. In particular, for two overlapping
/// spheres the nearer one wins regardless of order.
#[verifier::rlimit(100)]
#[verifier::spinoff_prover]
pub proof fn law_pair_order_irrelevant(a: Shape, b: Shape, ray: Ray)
    ensures
        s_children_hit(seq![a, b], ray) is Some <==> s_children_hit(seq![b, a], ray) is Some,
        s_children_hit(seq![a, b], ray) matches Some(h1) ==> s_children_hit(
            seq![b, a],
            ray,
        ) matches Some(h2) && h1.t == h2.t,
{
    let ab = seq![a, b];
    let ba = seq![b, a];
    assert(ab.drop_last() =~= seq![a]);
    assert(ba.drop_last() =~= seq![b]);
    assert(seq![a].drop_last() =~= Seq::<Shape>::empty());
    assert(seq![b].drop_last() =~= Seq::<Shape>::empty());
    assert(s_children_hit(seq![a], ray) == s_nearest(
        s_children_hit(Seq::<Shape>::empty(), ray),
        s_intersect(a, ray),
    ));
    assert(s_children_hit(ab, ray) == s_nearest(
        s_children_hit(seq![a], ray),
        s_intersect(b, ray),
    ));
    assert(s_children_hit(ba, ray) == s_nearest(
        s_children_hit(seq![b], ray),
        s_intersect(a, ray),
    ));
}


/// The identity matrix leaves every point where it is, exactly.
pub proof fn lemma_identity_point(q: Vec3)
    requires
        q.wf(),
    ensures
        Mat4::s_identity().s_point(q) == q,
{
    let r = Mat4::s_identity().s_transpose();
    let v = Vec4 { x: q.x, y: q.y, z: q.z, w: Fx { raw: FRAC } };
    assert(r.x.x.raw * v.x.raw + r.x.y.raw * v.y.raw + r.x.z.raw * v.z.raw + r.x.w.raw * v.w.raw
        == q.x.raw * 65536) by (nonlinear_arith)
        requires
            r.x.x.raw == 65536 && r.x.y.raw == 0 && r.x.z.raw == 0 && r.x.w.raw == 0,
            v.x.raw == q.x.raw,
    ;
    assert(r.y.x.raw * v.x.raw + r.y.y.raw * v.y.raw + r.y.z.raw * v.z.raw + r.y.w.raw * v.w.raw
        == q.y.raw * 65536) by (nonlinear_arith)
        requires
            r.y.x.raw == 0 && r.y.y.raw == 65536 && r.y.z.raw == 0 && r.y.w.raw == 0,
            v.y.raw == q.y.raw,
    ;
    assert(r.z.x.raw * v.x.raw + r.z.y.raw * v.y.raw + r.z.z.raw * v.z.raw + r.z.w.raw * v.w.raw
        == q.z.raw * 65536) by (nonlinear_arith)
        requires
            r.z.x.raw == 0 && r.z.y.raw == 0 && r.z.z.raw == 65536 && r.z.w.raw == 0,
            v.z.raw == q.z.raw,
    ;
    lemma_tdiv_mul_exact(q.x.raw as int, 65536);
    lemma_tdiv_mul_exact(q.y.raw as int, 65536);
    lemma_tdiv_mul_exact(q.z.raw as int, 65536);
}

/// The identity matrix is its own inverse, and its determinant is one.
pub proof fn lemma_identity_inverse()
    ensures
        Mat4::s_identity().s_det() == (Fx { raw: FRAC }),
        Mat4::s_identity().s_inv() == Mat4::s_identity(),
{
    reveal(Mat4::s_det);
    reveal(Mat3::s_det);
    reveal(Mat4::s_inv);
    reveal(Mat4::s_inv_entry);
    reveal(Mat4::s_cof);
    let o = Fx { raw: FRAC };
    let n = Fx { raw: 0 };
    lemma_fx_unit(o);
    lemma_fx_unit(n);
    assert(o.s_mul(o) == o && o.s_mul(n) == n && n.s_mul(o) == n && n.s_mul(n) == n);
    assert(o.s_sub(n) == o && n.s_sub(n) == n && o.s_add(n) == o && n.s_add(n) == n);
    assert(Mat4::s_identity().s_det() == (Fx { raw: FRAC }));
    assert(Mat4::s_identity().s_inv() =~= Mat4::s_identity());
}

/// Under the identity frame and a whole-unit cell size, stepping one
/// unit along an axis lands in the other color of the checkerboard:
/// the pattern alternates at every cell boundary. The one excluded
/// start is a coordinate of exactly minus one half, where rounding
/// away from zero skips a cell.
pub proof fn law_checkerboard_alternates(color1: Color, color2: Color, p: Vec3)
    requires
        color1 != color2,
        p.wf(),
        p.x.raw + FRAC <= LIM,
        p.x.raw != -(FRAC / 2),
    ensures
        s_checker_color(color1, color2, Fx { raw: FRAC }, Mat4::s_identity(), p)
            != s_checker_color(
            color1,
            color2,
            Fx { raw: FRAC },
            Mat4::s_identity(),
            Vec3 { x: Fx { raw: (p.x.raw + FRAC) as i64 }, y: p.y, z: p.z },
        ),
{
    let one = Fx { raw: FRAC };
    let idm = Mat4::s_identity();
    let p2 = Vec3 { x: Fx { raw: (p.x.raw + FRAC) as i64 }, y: p.y, z: p.z };
    lemma_identity_inverse();
    lemma_identity_point(p);
    lemma_identity_point(p2);
    lemma_fx_unit(p.x);
    lemma_fx_unit(p.y);
    lemma_fx_unit(p.z);
    lemma_fx_unit(p2.x);
    lemma_round_step(p.x);
    let rx = p.x.s_round();
    let ry = p.y.s_round();
    let rz = p.z.s_round();
    assert(p2.x.s_round() == rx + 1);
    assert(iabs(rx + 1 + ry + rz) % 2 != iabs(rx + ry + rz) % 2) by {
        let s = rx + ry + rz;
        if s >= 0 {
            assert(iabs(s) == s && iabs(s + 1) == s + 1);
        } else if s == -1 {
            assert(iabs(s) == 1 && iabs(s + 1) == 0);
        } else {
            assert(iabs(s) == -s && iabs(s + 1) == -s - 1);
        }
    }
}


/// A ray fired along an axis from outside a sphere, aimed through its
/// center, hits the near surface at exactly the center distance minus
/// the radius; the hit point sits exactly one radius from the center and
/// the normal is exactly the unit vector back along the axis. Whole-unit
/// radii and distances keep every step of the arithmetic exact.
pub proof fn law_sphere_axis_ray_hit(material: Material, r_i: i64, p_i: i64)
    requires
        1 <= r_i < p_i <= 20000,
    ensures
        ({
            let radius = Fx { raw: (r_i * FRAC) as i64 };
            let ray = Ray {
                pos: Vec3 {
                    x: Fx { raw: (-p_i * FRAC) as i64 },
                    y: Fx { raw: 0 },
                    z: Fx { raw: 0 },
                },
                dir: Vec3 { x: Fx { raw: FRAC }, y: Fx { raw: 0 }, z: Fx { raw: 0 } },
            };
            s_sphere_hit(material, radius, ray) == Some(
                Intersection {
                    t: Fx { raw: ((p_i - r_i) * FRAC) as i64 },
                    pos: Vec3 {
                        x: Fx { raw: (-r_i * FRAC) as i64 },
                        y: Fx { raw: 0 },
                        z: Fx { raw: 0 },
                    },
                    normal: Vec3 {
                        x: Fx { raw: (-FRAC) as i64 },
                        y: Fx { raw: 0 },
                        z: Fx { raw: 0 },
                    },
                    local_frame: Mat4::s_identity(),
                    material,
                },
            )
        }),
{
    reveal(s_sphere_hit);
    let f = FRAC as int;
    let r = r_i as int;
    let p = p_i as int;
    let radius = Fx { raw: (r_i * FRAC) as i64 };
    let ray = Ray {
        pos: Vec3 { x: Fx { raw: (-p_i * FRAC) as i64 }, y: Fx { raw: 0 }, z: Fx { raw: 0 } },
        dir: Vec3 { x: Fx { raw: FRAC }, y: Fx { raw: 0 }, z: Fx { raw: 0 } },
    };

    let a = ray.dir.s_dot(ray.dir);
    lemma_tdiv_mul_exact(f, f);
    assert(a == Fx { raw: FRAC });

    let dp = ray.dir.s_dot(ray.pos);
    assert(f * (-p * f) == (-p * f) * f) by (nonlinear_arith);
    lemma_tdiv_mul_exact(-p * f, f);
    assert(-LIM <= -p * f <= LIM) by (nonlinear_arith)
        requires
            1 <= p <= 20000,
            f == 65536,
            LIM == 0x7fff_ffff_ffff,
    ;
    assert(dp == Fx { raw: (-p_i * FRAC) as i64 });

    let b = Fx { raw: 131072 }.s_mul(dp);
    assert(131072 * (-p * f) == (-2 * p * f) * f) by (nonlinear_arith)
        requires
            f == 65536,
    ;
    lemma_tdiv_mul_exact(-2 * p * f, f);
    assert(-LIM <= -2 * p * f <= LIM) by (nonlinear_arith)
        requires
            1 <= p <= 20000,
            f == 65536,
            LIM == 0x7fff_ffff_ffff,
    ;
    assert(b.raw == -2 * p * f);

    let pp = ray.pos.s_dot(ray.pos);
    assert((-p * f) * (-p * f) == (p * p * f) * f) by (nonlinear_arith)
        requires
            f == 65536,
    ;
    lemma_tdiv_mul_exact(p * p * f, f);
    assert(0 <= p * p * f <= LIM) by (nonlinear_arith)
        requires
            1 <= p <= 20000,
            f == 65536,
            LIM == 0x7fff_ffff_ffff,
    ;
    assert(pp.raw == p * p * f);

    let rr = radius.s_mul(radius);
    assert((r * f) * (r * f) == (r * r * f) * f) by (nonlinear_arith)
        requires
            f == 65536,
    ;
    lemma_tdiv_mul_exact(r * r * f, f);
    assert(0 <= r * r * f <= LIM) by (nonlinear_arith)
        requires
            1 <= r <= 20000,
            f == 65536,
            LIM == 0x7fff_ffff_ffff,
    ;
    assert(rr.raw == r * r * f);

    let c = pp.s_sub(rr);
    assert(0 < r * r <= p * p) by (nonlinear_arith)
        requires
            1 <= r < p,
    ;
    assert(c.raw == (p * p - r * r) * f) by (nonlinear_arith)
        requires
            c.raw == sat(p * p * f - r * r * f),
            0 <= p * p * f - r * r * f <= LIM,
            f == 65536,
    ;
    assert(0 <= (p * p - r * r) * f <= LIM) by (nonlinear_arith)
        requires
            0 < r * r <= p * p,
            1 <= p <= 20000,
            f == 65536,
            LIM == 0x7fff_ffff_ffff,
    ;

    let bb = b.s_mul(b);
    assert((-2 * p * f) * (-2 * p * f) == (4 * p * p * f) * f) by (nonlinear_arith)
        requires
            f == 65536,
    ;
    lemma_tdiv_mul_exact(4 * p * p * f, f);
    assert(0 <= 4 * p * p * f <= LIM) by (nonlinear_arith)
        requires
            1 <= p <= 20000,
            f == 65536,
            LIM == 0x7fff_ffff_ffff,
    ;
    assert(bb.raw == 4 * p * p * f);

    let ac = a.s_mul(c);
    assert(f * ((p * p - r * r) * f) == ((p * p - r * r) * f) * f) by (nonlinear_arith);
    lemma_tdiv_mul_exact((p * p - r * r) * f, f);
    assert(ac.raw == (p * p - r * r) * f);

    let fac = Fx { raw: 262144 }.s_mul(ac);
    assert(262144 * ((p * p - r * r) * f) == (4 * (p * p - r * r) * f) * f) by (nonlinear_arith)
        requires
            f == 65536,
    ;
    lemma_tdiv_mul_exact(4 * (p * p - r * r) * f, f);
    assert(0 <= 4 * (p * p - r * r) * f <= 4 * p * p * f) by (nonlinear_arith)
        requires
            0 < r * r <= p * p,
            f == 65536,
    ;
    assert(fac.raw == 4 * (p * p - r * r) * f);

    let d = bb.s_sub(fac);
    assert(4 * p * p * f - 4 * (p * p - r * r) * f == 4 * r * r * f) by (nonlinear_arith);
    assert(0 < 4 * r * r * f <= 4 * p * p * f <= LIM) by (nonlinear_arith)
        requires
            0 < r * r <= p * p,
            1 <= r < p <= 20000,
            f == 65536,
            LIM == 0x7fff_ffff_ffff,
    ;
    assert(d.raw == 4 * r * r * f) by (nonlinear_arith)
        requires
            d.raw == sat(4 * p * p * f - 4 * (p * p - r * r) * f),
            0 < 4 * r * r * f <= 4 * p * p * f <= LIM,
            4 * p * p * f - 4 * (p * p - r * r) * f == 4 * r * r * f,
    ;
    assert(d.raw > 0);

    let sq = d.s_sqrt();
    assert((4 * r * r * f) * f == (2 * r * f) * (2 * r * f)) by (nonlinear_arith);
    assert(0 <= 2 * r * f) by (nonlinear_arith)
        requires
            1 <= r,
            f == 65536,
    ;
    assert((2 * r * f + 1) * (2 * r * f + 1) > (2 * r * f) * (2 * r * f)) by (nonlinear_arith)
        requires
            0 <= 2 * r * f,
    ;
    lemma_sqrt_floor_unique(((4 * r * r * f) * f) as nat, (2 * r * f) as nat);
    assert(0 <= 2 * r * f <= LIM) by (nonlinear_arith)
        requires
            1 <= r <= 20000,
            f == 65536,
            LIM == 0x7fff_ffff_ffff,
    ;
    assert(sq.raw == 2 * r * f);

    assert(b.raw <= 0) by (nonlinear_arith)
        requires
            b.raw == -2 * p * f,
            1 <= p,
            f == 65536,
    ;
    let bs = b.s_sub(sq);
    assert(b.raw - sq.raw == (-2 * p - 2 * r) * f) by (nonlinear_arith)
        requires
            b.raw == -2 * p * f,
            sq.raw == 2 * r * f,
    ;
    assert(-LIM <= (-2 * p - 2 * r) * f <= 0) by (nonlinear_arith)
        requires
            1 <= r < p <= 20000,
            f == 65536,
            LIM == 0x7fff_ffff_ffff,
    ;
    assert(bs.raw == (-2 * p - 2 * r) * f);

    let q = Fx { raw: (-32768) as i64 }.s_mul(bs);
    assert((-32768) * ((-2 * p - 2 * r) * f) == ((p + r) * f) * f) by (nonlinear_arith)
        requires
            f == 65536,
    ;
    lemma_tdiv_mul_exact((p + r) * f, f);
    assert(0 <= (p + r) * f <= LIM) by (nonlinear_arith)
        requires
            1 <= r < p <= 20000,
            f == 65536,
            LIM == 0x7fff_ffff_ffff,
    ;
    assert(q.raw == (p + r) * f);

    let ta = q.s_div(a);
    assert(((p + r) * f) * f == ((p + r) * f) * f) by (nonlinear_arith);
    lemma_tdiv_mul_exact((p + r) * f, f);
    assert(ta.raw == (p + r) * f);

    let tb = c.s_div(q);
    assert(q.raw != 0) by (nonlinear_arith)
        requires
            q.raw == (p + r) * f,
            1 <= r < p,
            f == 65536,
    ;
    assert(((p * p - r * r) * f) * f == ((p - r) * f) * ((p + r) * f)) by (nonlinear_arith);
    lemma_tdiv_mul_exact((p - r) * f, (p + r) * f);
    assert(0 <= (p - r) * f < (p + r) * f) by (nonlinear_arith)
        requires
            1 <= r < p,
            f == 65536,
    ;
    assert(tb.raw == (p - r) * f);

    let t0 = ta.s_min(tb);
    assert(t0 == tb);

    let hp = ray.s_at(t0);
    assert(((p - r) * f) * f == ((p - r) * f) * f) by (nonlinear_arith);
    lemma_tdiv_mul_exact((p - r) * f, f);
    assert(tdiv(t0.raw * 0, f) == 0);
    assert(hp.x.raw == sat(-p * f + (p - r) * f));
    assert(-p * f + (p - r) * f == -r * f) by (nonlinear_arith);
    assert(-LIM <= -r * f <= 0) by (nonlinear_arith)
        requires
            1 <= r <= 20000,
            f == 65536,
            LIM == 0x7fff_ffff_ffff,
    ;
    assert(hp == Vec3 {
        x: Fx { raw: (-r_i * FRAC) as i64 },
        y: Fx { raw: 0 },
        z: Fx { raw: 0 },
    });

    let nv = hp.s_normalize();
    assert((-r * f) * (-r * f) == (r * f) * (r * f)) by (nonlinear_arith);
    assert((r * f + 1) * (r * f + 1) > (r * f) * (r * f)) by (nonlinear_arith)
        requires
            0 <= r * f,
    ;
    assert(0 <= r * f) by (nonlinear_arith)
        requires
            1 <= r,
            f == 65536,
    ;
    lemma_sqrt_floor_unique(((r * f) * (r * f)) as nat, (r * f) as nat);
    assert(hp.s_len().raw == r * f);
    assert((-r * f) * f == (-f) * (r * f)) by (nonlinear_arith);
    lemma_tdiv_mul_exact(-f, r * f);
    assert(nv.x.raw == -f);
    assert(tdiv(0, r * f) == 0);
    assert(nv == Vec3 {
        x: Fx { raw: (-FRAC) as i64 },
        y: Fx { raw: 0 },
        z: Fx { raw: 0 },
    });
}


/// A ray fired along an axis at a cube from outside hits exactly the
/// facing side: the hit parameter is the distance to that face, the hit
/// point lies on it, and the normal is exactly the unit vector of that
/// one axis, pointing back at the ray. Whole-unit half-sides and
/// distances keep the arithmetic exact.
pub proof fn law_cube_axis_ray_hit(material: Material, u_i: i64, p_i: i64)
    requires
        1 <= u_i < p_i <= 20000,
    ensures
        ({
            let size = Vec3 {
                x: Fx { raw: (2 * u_i * FRAC) as i64 },
                y: Fx { raw: (2 * u_i * FRAC) as i64 },
                z: Fx { raw: (2 * u_i * FRAC) as i64 },
            };
            let ray = Ray {
                pos: Vec3 {
                    x: Fx { raw: (-p_i * FRAC) as i64 },
                    y: Fx { raw: 0 },
                    z: Fx { raw: 0 },
                },
                dir: Vec3 { x: Fx { raw: FRAC }, y: Fx { raw: 0 }, z: Fx { raw: 0 } },
            };
            s_cube_hit(material, size, ray) == Some(
                Intersection {
                    t: Fx { raw: ((p_i - u_i) * FRAC) as i64 },
                    pos: Vec3 {
                        x: Fx { raw: (-u_i * FRAC) as i64 },
                        y: Fx { raw: 0 },
                        z: Fx { raw: 0 },
                    },
                    normal: Vec3 {
                        x: Fx { raw: (-FRAC) as i64 },
                        y: Fx { raw: 0 },
                        z: Fx { raw: 0 },
                    },
                    local_frame: Mat4::s_identity(),
                    material,
                },
            )
        }),
{
    reveal(s_cube_hit);
    let f = FRAC as int;
    let u = u_i as int;
    let p = p_i as int;
    let side = Fx { raw: (2 * u_i * FRAC) as i64 };
    let size = Vec3 { x: side, y: side, z: side };
    let ray = Ray {
        pos: Vec3 { x: Fx { raw: (-p_i * FRAC) as i64 }, y: Fx { raw: 0 }, z: Fx { raw: 0 } },
        dir: Vec3 { x: Fx { raw: FRAC }, y: Fx { raw: 0 }, z: Fx { raw: 0 } },
    };
    assert(0 < 2 * u * f <= LIM && -LIM <= -p * f < 0 && 0 <= (p - u) * f < (p + u) * f <= LIM
        && 0 < u * f <= LIM) by (nonlinear_arith)
        requires
            1 <= u < p <= 20000,
            f == 65536,
            LIM == 0x7fff_ffff_ffff,
    ;

    let h = side.s_mul(Fx { raw: 32768 });
    assert((2 * u * f) * 32768 == (u * f) * f) by (nonlinear_arith)
        requires
            f == 65536,
    ;
    lemma_tdiv_mul_exact(u * f, f);
    assert(h.raw == u * f);

    let sy = s_axis_slab(ray.pos.y, size.y, ray.dir.y);
    assert(sy == Slab::Full);
    let sz = s_axis_slab(ray.pos.z, size.z, ray.dir.z);
    assert(sz == Slab::Full);

    let sx = s_axis_slab(ray.pos.x, size.x, ray.dir.x);
    let t1 = h.s_neg().s_sub(ray.pos.x).s_div(ray.dir.x);
    assert(h.s_neg().s_sub(ray.pos.x).raw == (p - u) * f) by (nonlinear_arith)
        requires
            h.raw == u * f,
            ray.pos.x.raw == -p * f,
            h.s_neg().s_sub(ray.pos.x).raw == sat(-(u * f) + p * f),
            0 <= (p - u) * f <= LIM,
    ;
    assert(((p - u) * f) * f == ((p - u) * f) * f) by (nonlinear_arith);
    lemma_tdiv_mul_exact((p - u) * f, f);
    assert(t1.raw == (p - u) * f);
    let t2 = h.s_sub(ray.pos.x).s_div(ray.dir.x);
    assert(h.s_sub(ray.pos.x).raw == (p + u) * f) by (nonlinear_arith)
        requires
            h.raw == u * f,
            ray.pos.x.raw == -p * f,
            h.s_sub(ray.pos.x).raw == sat(u * f + p * f),
            0 <= (p + u) * f <= LIM,
    ;
    lemma_tdiv_mul_exact((p + u) * f, f);
    assert(t2.raw == (p + u) * f);
    assert(sx == Slab::Range { lo: t1, hi: t2 });

    assert(s_slab_and(s_slab_and(sx, sy), sz) == sx);

    let hp = ray.s_at(t1);
    lemma_tdiv_mul_exact((p - u) * f, f);
    assert(tdiv(t1.raw * 0, f) == 0);
    assert(hp.x.raw == sat(-p * f + (p - u) * f));
    assert(-p * f + (p - u) * f == -u * f) by (nonlinear_arith);
    assert(hp == Vec3 {
        x: Fx { raw: (-u_i * FRAC) as i64 },
        y: Fx { raw: 0 },
        z: Fx { raw: 0 },
    });

    let qx = hp.x.s_div(size.x);
    assert((-u * f) * f == (-32768) * (2 * u * f)) by (nonlinear_arith)
        requires
            f == 65536,
    ;
    lemma_tdiv_mul_exact(-32768, 2 * u * f);
    assert(qx.raw == -32768);
    assert(qx.s_abs().raw * 2 == 65536);
    let qy = hp.y.s_div(size.y);
    assert(tdiv(0 * f, 2 * u * f) == 0);
    assert(qy.raw == 0);
    let qz = hp.z.s_div(size.z);
    assert(qz.raw == 0);

    let kept = Vec3 { x: hp.x, y: Fx { raw: 0 }, z: Fx { raw: 0 } };
    let n1 = kept.s_normalize();
    assert((-u * f) * (-u * f) == (u * f) * (u * f)) by (nonlinear_arith);
    assert((u * f + 1) * (u * f + 1) > (u * f) * (u * f)) by (nonlinear_arith)
        requires
            0 <= u * f,
    ;
    lemma_sqrt_floor_unique(((u * f) * (u * f)) as nat, (u * f) as nat);
    assert(kept.s_len().raw == u * f);
    assert((-u * f) * f == (-f) * (u * f)) by (nonlinear_arith);
    lemma_tdiv_mul_exact(-f, u * f);
    assert(tdiv(0, u * f) == 0);
    assert(n1 == Vec3 {
        x: Fx { raw: (-FRAC) as i64 },
        y: Fx { raw: 0 },
        z: Fx { raw: 0 },
    });

    let n2 = n1.s_normalize();
    assert((-f) * (-f) == f * f) by (nonlinear_arith);
    assert((f + 1) * (f + 1) > f * f) by (nonlinear_arith)
        requires
            0 < f,
    ;
    lemma_sqrt_floor_unique((f * f) as nat, f as nat);
    assert(n1.s_len().raw == f);
    assert((-f) * f == (-f) * f) by (nonlinear_arith);
    lemma_tdiv_mul_exact(-f, f);
    assert(tdiv(0, f) == 0);
    assert(n2 == n1);
}


/// A dot product against the first unit column picks the first entry.
proof fn lemma_dot_axis_x(lhs: Vec4, rhs: Vec4)
    requires
        lhs.wf(),
        rhs.x.raw == FRAC && rhs.y.raw == 0 && rhs.z.raw == 0 && rhs.w.raw == 0,
    ensures
        Vec4::s_dot(lhs, rhs) == lhs.x,
{
    assert(lhs.x.raw * rhs.x.raw + lhs.y.raw * rhs.y.raw + lhs.z.raw * rhs.z.raw + lhs.w.raw
        * rhs.w.raw == lhs.x.raw * 65536) by (nonlinear_arith)
        requires
            rhs.x.raw == 65536 && rhs.y.raw == 0 && rhs.z.raw == 0 && rhs.w.raw == 0,
    ;
    lemma_tdiv_mul_exact(lhs.x.raw as int, 65536);
}

/// A dot product against the second unit column picks the second entry.
proof fn lemma_dot_axis_y(lhs: Vec4, rhs: Vec4)
    requires
        lhs.wf(),
        rhs.x.raw == 0 && rhs.y.raw == FRAC && rhs.z.raw == 0 && rhs.w.raw == 0,
    ensures
        Vec4::s_dot(lhs, rhs) == lhs.y,
{
    assert(lhs.x.raw * rhs.x.raw + lhs.y.raw * rhs.y.raw + lhs.z.raw * rhs.z.raw + lhs.w.raw
        * rhs.w.raw == lhs.y.raw * 65536) by (nonlinear_arith)
        requires
            rhs.x.raw == 0 && rhs.y.raw == 65536 && rhs.z.raw == 0 && rhs.w.raw == 0,
    ;
    lemma_tdiv_mul_exact(lhs.y.raw as int, 65536);
}

/// A dot product against the third unit column picks the third entry.
proof fn lemma_dot_axis_z(lhs: Vec4, rhs: Vec4)
    requires
        lhs.wf(),
        rhs.x.raw == 0 && rhs.y.raw == 0 && rhs.z.raw == FRAC && rhs.w.raw == 0,
    ensures
        Vec4::s_dot(lhs, rhs) == lhs.z,
{
    assert(lhs.x.raw * rhs.x.raw + lhs.y.raw * rhs.y.raw + lhs.z.raw * rhs.z.raw + lhs.w.raw
        * rhs.w.raw == lhs.z.raw * 65536) by (nonlinear_arith)
        requires
            rhs.x.raw == 0 && rhs.y.raw == 0 && rhs.z.raw == 65536 && rhs.w.raw == 0,
    ;
    lemma_tdiv_mul_exact(lhs.z.raw as int, 65536);
}

/// A dot product against the last unit column picks the last entry.
proof fn lemma_dot_axis_w(lhs: Vec4, rhs: Vec4)
    requires
        lhs.wf(),
        rhs.x.raw == 0 && rhs.y.raw == 0 && rhs.z.raw == 0 && rhs.w.raw == FRAC,
    ensures
        Vec4::s_dot(lhs, rhs) == lhs.w,
{
    assert(lhs.x.raw * rhs.x.raw + lhs.y.raw * rhs.y.raw + lhs.z.raw * rhs.z.raw + lhs.w.raw
        * rhs.w.raw == lhs.w.raw * 65536) by (nonlinear_arith)
        requires
            rhs.x.raw == 0 && rhs.y.raw == 0 && rhs.z.raw == 0 && rhs.w.raw == 65536,
    ;
    lemma_tdiv_mul_exact(lhs.w.raw as int, 65536);
}

/// Multiplying by the identity matrix on the right changes nothing.
pub proof fn lemma_mul_identity_right(m: Mat4)
    requires
        m.wf(),
    ensures
        m.s_mul_mat(Mat4::s_identity()) == m,
{
    let t = m.s_transpose();
    let idm = Mat4::s_identity();
    lemma_dot_axis_x(t.x, idm.x);
    lemma_dot_axis_x(t.y, idm.x);
    lemma_dot_axis_x(t.z, idm.x);
    lemma_dot_axis_x(t.w, idm.x);
    lemma_dot_axis_y(t.x, idm.y);
    lemma_dot_axis_y(t.y, idm.y);
    lemma_dot_axis_y(t.z, idm.y);
    lemma_dot_axis_y(t.w, idm.y);
    lemma_dot_axis_z(t.x, idm.z);
    lemma_dot_axis_z(t.y, idm.z);
    lemma_dot_axis_z(t.z, idm.z);
    lemma_dot_axis_z(t.w, idm.z);
    lemma_dot_axis_w(t.x, idm.w);
    lemma_dot_axis_w(t.y, idm.w);
    lemma_dot_axis_w(t.z, idm.w);
    lemma_dot_axis_w(t.w, idm.w);
    assert(m.s_mul_mat(idm) =~= m);
}

/// The placement that only translates composes to exactly the
/// translation matrix.
pub proof fn lemma_translation_matrix(t: Vec3)
    requires
        t.wf(),
    ensures
        (Transform {
            translation: t,
            rotation: Quat { x: Fx { raw: 0 }, y: Fx { raw: 0 }, z: Fx { raw: 0 }, w: Fx { raw: FRAC } },
            scale: Vec3 { x: Fx { raw: FRAC }, y: Fx { raw: FRAC }, z: Fx { raw: FRAC } },
        }).s_matrix() == Mat4::s_from_translation(t),
{
    reveal(Transform::s_matrix);
    reveal(Mat4::s_from_quat);
    let idq = Quat { x: Fx { raw: 0 }, y: Fx { raw: 0 }, z: Fx { raw: 0 }, w: Fx { raw: FRAC } };
    let o = Fx { raw: FRAC };
    let n = Fx { raw: 0 };
    lemma_fx_zero(n);
    lemma_fx_zero(Fx { raw: 131072 });
    lemma_fx_unit(o);
    assert(Mat4::s_from_quat(idq) =~= Mat4::s_identity());
    assert(Mat4::s_from_scale(Vec3 { x: o, y: o, z: o }) =~= Mat4::s_identity());
    lemma_mul_identity_right(Mat4::s_from_translation(t));
}

/// The determinant of a pure translation is exactly one.
pub proof fn lemma_translation_det(t: Vec3)
    requires
        t.wf(),
    ensures
        Mat4::s_from_translation(t).s_det() == (Fx { raw: FRAC }),
{
    reveal(Mat4::s_det);
    reveal(Mat3::s_det);
    let o = Fx { raw: FRAC };
    let n = Fx { raw: 0 };
    lemma_fx_unit(o);
    lemma_fx_zero(o);
    lemma_fx_zero(t.x);
    lemma_fx_zero(t.y);
    lemma_fx_zero(t.z);
    assert(Mat4::s_from_translation(t).s_det() == o);
}

/// The inverse of a pure translation is the opposite translation.
#[verifier::rlimit(100)]
#[verifier::spinoff_prover]
pub proof fn lemma_translation_inverse(t: Vec3)
    requires
        t.wf(),
    ensures
        Mat4::s_from_translation(t).s_inv() == Mat4::s_from_translation(t.s_neg()),
{
    reveal(Mat4::s_inv);
    reveal(Mat4::s_inv_entry);
    reveal(Mat4::s_cof);
    reveal(Mat3::s_det);
    lemma_translation_det(t);
    let o = Fx { raw: FRAC };
    lemma_fx_unit(o);
    lemma_fx_zero(o);
    lemma_fx_zero(t.x);
    lemma_fx_zero(t.y);
    lemma_fx_zero(t.z);
    lemma_fx_zero(t.x.s_neg());
    lemma_fx_zero(t.y.s_neg());
    lemma_fx_zero(t.z.s_neg());
    lemma_fx_unit(t.x);
    lemma_fx_unit(t.y);
    lemma_fx_unit(t.z);
    lemma_fx_unit(t.x.s_neg());
    lemma_fx_unit(t.y.s_neg());
    lemma_fx_unit(t.z.s_neg());
    assert(Mat4::s_from_translation(t).s_inv() =~= Mat4::s_from_translation(t.s_neg()));
}

/// A translation matrix moves a point by exactly its offset, as long as
/// no coordinate leaves the representable range.
pub proof fn lemma_translation_point(t: Vec3, q: Vec3)
    requires
        t.wf(),
        q.wf(),
        -LIM <= q.x.raw + t.x.raw <= LIM,
        -LIM <= q.y.raw + t.y.raw <= LIM,
        -LIM <= q.z.raw + t.z.raw <= LIM,
    ensures
        Mat4::s_from_translation(t).s_point(q) == q.s_add(t),
{
    let m = Mat4::s_from_translation(t);
    let r = m.s_transpose();
    let v = Vec4 { x: q.x, y: q.y, z: q.z, w: Fx { raw: FRAC } };
    assert(r.x.x.raw * v.x.raw + r.x.y.raw * v.y.raw + r.x.z.raw * v.z.raw + r.x.w.raw * v.w.raw
        == (q.x.raw + t.x.raw) * 65536) by (nonlinear_arith)
        requires
            r.x.x.raw == 65536 && r.x.y.raw == 0 && r.x.z.raw == 0 && r.x.w.raw == t.x.raw,
            v.x.raw == q.x.raw && v.w.raw == 65536,
    ;
    assert(r.y.x.raw * v.x.raw + r.y.y.raw * v.y.raw + r.y.z.raw * v.z.raw + r.y.w.raw * v.w.raw
        == (q.y.raw + t.y.raw) * 65536) by (nonlinear_arith)
        requires
            r.y.x.raw == 0 && r.y.y.raw == 65536 && r.y.z.raw == 0 && r.y.w.raw == t.y.raw,
            v.y.raw == q.y.raw && v.w.raw == 65536,
    ;
    assert(r.z.x.raw * v.x.raw + r.z.y.raw * v.y.raw + r.z.z.raw * v.z.raw + r.z.w.raw * v.w.raw
        == (q.z.raw + t.z.raw) * 65536) by (nonlinear_arith)
        requires
            r.z.x.raw == 0 && r.z.y.raw == 0 && r.z.z.raw == 65536 && r.z.w.raw == t.z.raw,
            v.z.raw == q.z.raw && v.w.raw == 65536,
    ;
    lemma_tdiv_mul_exact(q.x.raw + t.x.raw, 65536);
    lemma_tdiv_mul_exact(q.y.raw + t.y.raw, 65536);
    lemma_tdiv_mul_exact(q.z.raw + t.z.raw, 65536);
}

/// Carrying a point into a translated placement's local space and back,
/// in either order, restores the point exactly: the transform round
/// trip loses nothing for pure translations that stay in range.
pub proof fn law_translation_round_trip(t: Vec3, q: Vec3)
    requires
        t.wf(),
        q.wf(),
        -LIM <= q.x.raw + t.x.raw <= LIM,
        -LIM <= q.y.raw + t.y.raw <= LIM,
        -LIM <= q.z.raw + t.z.raw <= LIM,
        -LIM <= q.x.raw - t.x.raw <= LIM,
        -LIM <= q.y.raw - t.y.raw <= LIM,
        -LIM <= q.z.raw - t.z.raw <= LIM,
    ensures
        ({
            let tr = Transform {
                translation: t,
                rotation: Quat {
                    x: Fx { raw: 0 },
                    y: Fx { raw: 0 },
                    z: Fx { raw: 0 },
                    w: Fx { raw: FRAC },
                },
                scale: Vec3 { x: Fx { raw: FRAC }, y: Fx { raw: FRAC }, z: Fx { raw: FRAC } },
            };
            &&& tr.invertible()
            &&& tr.s_matrix().s_point(tr.s_matrix().s_inv().s_point(q)) == q
            &&& tr.s_matrix().s_inv().s_point(tr.s_matrix().s_point(q)) == q
        }),
{
    let tr = Transform {
        translation: t,
        rotation: Quat { x: Fx { raw: 0 }, y: Fx { raw: 0 }, z: Fx { raw: 0 }, w: Fx { raw: FRAC } },
        scale: Vec3 { x: Fx { raw: FRAC }, y: Fx { raw: FRAC }, z: Fx { raw: FRAC } },
    };
    lemma_translation_matrix(t);
    lemma_translation_det(t);
    lemma_translation_inverse(t);
    let nt = t.s_neg();
    lemma_translation_point(t, q);
    lemma_translation_point(nt, q.s_add(t));
    lemma_translation_point(nt, q);
    lemma_translation_point(t, q.s_add(nt));
    assert(q.s_add(t).s_add(nt) =~= q);
    assert(q.s_add(nt).s_add(t) =~= q);
}

} // verus!
