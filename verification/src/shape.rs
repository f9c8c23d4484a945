use vstd::prelude::*;

use crate::fixed::{Fx, FRAC};
use crate::mat4::Mat4;
use crate::material::Material;
use crate::object::Polygon;
use crate::ray::{Intersection, Ray};
use crate::transform::Transform;
use crate::vec3::Vec3;

verus! {

/// The geometric variants a scene node can carry.
pub enum Mesh {
    Sphere { radius: Fx },
    Cube { size: Vec3 },
    InfinitePlane,
    Polygons { obj: crate::object::Object },
    CompositeShape { shapes: Vec<Shape> },
}

/// A scene node: a material, a placement, and one geometric variant.
/// Composite nodes own their children, so the scene is a finite tree.
pub struct Shape {
    pub material: Material,
    pub transform: Transform,
    pub mesh: Mesh,
}

impl Mesh {
    pub open spec fn wf(self) -> bool
        decreases self, 0int,
    {
        match self {
            Mesh::Sphere { radius } => radius.wf(),
            Mesh::Cube { size } => size.wf() && size.x.raw > 0 && size.y.raw > 0 && size.z.raw
                > 0,
            Mesh::InfinitePlane => true,
            Mesh::Polygons { obj } => obj.wf(),
            Mesh::CompositeShape { shapes } => forall|i: int|
                0 <= i < shapes@.len() ==> shapes@[i].wf(),
        }
    }
}

impl Shape {
    /// Well-formed scene node: every scalar in range, every placement
    /// invertible, every cube side positive, every face a triangle.
    pub open spec fn wf(self) -> bool
        decreases self, 1int,
    {
        &&& self.material.wf()
        &&& self.transform.wf()
        &&& self.transform.invertible()
        &&& self.mesh.wf()
    }
}

/// Of two candidate hits, the nearer; a present hit beats an absent one,
/// and on an exact tie the incumbent stays.
pub open spec fn s_nearest(cur: Option<Intersection>, new: Option<Intersection>) -> Option<
    Intersection,
> {
    match new {
        Option::None => cur,
        Option::Some(n) => match cur {
            Option::None => Option::Some(n),
            Option::Some(c) => if n.t.raw < c.t.raw {
                Option::Some(n)
            } else {
                Option::Some(c)
            },
        },
    }
}

/// The ray/sphere quadratic, solved in the sphere's local space: the
/// nearer real root is the candidate, and a candidate behind the origin
/// is a miss.
#[verifier::opaque]
pub open spec fn s_sphere_hit(material: Material, radius: Fx, ray: Ray) -> Option<Intersection> {
    let a = ray.dir.s_dot(ray.dir);
    let b = Fx { raw: 131072 }.s_mul(ray.dir.s_dot(ray.pos));
    let c = ray.pos.s_dot(ray.pos).s_sub(radius.s_mul(radius));
    if a.raw == 0 {
        Option::None
    } else {
        let d = b.s_mul(b).s_sub(Fx { raw: 262144 }.s_mul(a.s_mul(c)));
        if d.raw < 0 {
            Option::None
        } else {
            let t0 = if d.raw == 0 {
                Fx { raw: (-32768) as i64 }.s_mul(b).s_div(a)
            } else {
                let sq = d.s_sqrt();
                let q = if b.raw > 0 {
                    Fx { raw: (-32768) as i64 }.s_mul(b.s_add(sq))
                } else {
                    Fx { raw: (-32768) as i64 }.s_mul(b.s_sub(sq))
                };
                let ta = q.s_div(a);
                let tb = if q.raw == 0 {
                    ta
                } else {
                    c.s_div(q)
                };
                ta.s_min(tb)
            };
            if t0.raw < 0 {
                Option::None
            } else {
                let p = ray.s_at(t0);
                Option::Some(
                    Intersection {
                        t: t0,
                        pos: p,
                        normal: p.s_normalize(),
                        local_frame: Mat4::s_identity(),
                        material,
                    },
                )
            }
        }
    }
}

/// The parameter interval in which a ray stays between one axis pair of
/// box faces: the whole line, nothing, or a bounded range.
pub enum Slab {
    Full,
    Empty,
    Range { lo: Fx, hi: Fx },
}

impl Slab {
    pub open spec fn wf(self) -> bool {
        match self {
            Slab::Range { lo, hi } => lo.wf() && hi.wf(),
            _ => true,
        }
    }
}

/// One axis of the slab method. A ray parallel to the slab is inside it
/// for every parameter or for none.
pub open spec fn s_axis_slab(pos: Fx, size: Fx, dir: Fx) -> Slab {
    let h = size.s_mul(Fx { raw: 32768 });
    if dir.raw == 0 {
        if -h.raw <= pos.raw <= h.raw {
            Slab::Full
        } else {
            Slab::Empty
        }
    } else {
        let t1 = h.s_neg().s_sub(pos).s_div(dir);
        let t2 = h.s_sub(pos).s_div(dir);
        Slab::Range { lo: t1.s_min(t2), hi: t1.s_max(t2) }
    }
}

/// Interval intersection of two slabs.
pub open spec fn s_slab_and(a: Slab, b: Slab) -> Slab {
    match a {
        Slab::Empty => Slab::Empty,
        Slab::Full => b,
        Slab::Range { lo: l1, hi: h1 } => match b {
            Slab::Empty => Slab::Empty,
            Slab::Full => a,
            Slab::Range { lo: l2, hi: h2 } => Slab::Range {
                lo: l1.s_max(l2),
                hi: h1.s_min(h2),
            },
        },
    }
}

/// The axis-aligned box solver: intersect the three slab intervals; the
/// face normal keeps only the coordinates that sit at the boundary.
#[verifier::opaque]
pub open spec fn s_cube_hit(material: Material, size: Vec3, ray: Ray) -> Option<Intersection> {
    let sx = s_axis_slab(ray.pos.x, size.x, ray.dir.x);
    let sy = s_axis_slab(ray.pos.y, size.y, ray.dir.y);
    let sz = s_axis_slab(ray.pos.z, size.z, ray.dir.z);
    match s_slab_and(s_slab_and(sx, sy), sz) {
        Slab::Empty => Option::None,
        Slab::Full => Option::None,
        Slab::Range { lo: tmin, hi: tmax } => {
            if tmax.raw < 0 || tmin.raw > tmax.raw || tmin.raw < 0 {
                Option::None
            } else {
                let pos = ray.s_at(tmin);
                let kx = if pos.x.s_div(size.x).s_abs().raw * 2 < 65535 {
                    Fx { raw: 0 }
                } else {
                    pos.x
                };
                let ky = if pos.y.s_div(size.y).s_abs().raw * 2 < 65535 {
                    Fx { raw: 0 }
                } else {
                    pos.y
                };
                let kz = if pos.z.s_div(size.z).s_abs().raw * 2 < 65535 {
                    Fx { raw: 0 }
                } else {
                    pos.z
                };
                let n = Vec3 { x: kx, y: ky, z: kz }.s_normalize().s_normalize();
                Option::Some(
                    Intersection {
                        t: tmin,
                        pos,
                        normal: n,
                        local_frame: Mat4::s_identity(),
                        material,
                    },
                )
            }
        },
    }
}

/// The plane y = 0: a ray parallel to it misses, any other ray meets it
/// at one parameter, kept when not behind the origin. The normal faces
/// the side the ray came from.
#[verifier::opaque]
pub open spec fn s_plane_hit(material: Material, ray: Ray) -> Option<Intersection> {
    if ray.dir.y.raw == 0 {
        Option::None
    } else {
        let t = ray.pos.y.s_div(ray.dir.y.s_neg());
        if t.raw < 0 {
            Option::None
        } else {
            let ny: i64 = if ray.pos.y.raw > 0 {
                FRAC
            } else {
                (-FRAC) as i64
            };
            Option::Some(
                Intersection {
                    t,
                    pos: ray.s_at(t),
                    normal: Vec3 { x: Fx { raw: 0 }, y: Fx { raw: ny }, z: Fx { raw: 0 } },
                    local_frame: Mat4::s_identity(),
                    material,
                },
            )
        }
    }
}

/// One triangle: the ray meets the triangle's plane and the barycentric
/// weights must all lie in the unit interval. The interpolated corner
/// normal is flipped toward the side the ray came from.
#[verifier::opaque]
pub open spec fn s_triangle_hit(material: Material, poly: Polygon, ray: Ray) -> Option<
    Intersection,
> {
    let p0 = poly.points@[0];
    let p1 = poly.points@[1];
    let p2 = poly.points@[2];
    let n0 = poly.normals@[0];
    let n1 = poly.normals@[1];
    let n2 = poly.normals@[2];
    let e1 = p1.s_sub(p0);
    let e2 = p2.s_sub(p0);
    let s = ray.pos.s_sub(p0);
    let pv = ray.dir.s_cross(e2);
    let qv = s.s_cross(e1);
    let denom = pv.s_dot(e1);
    if denom.raw == 0 {
        Option::None
    } else {
        let t = qv.s_dot(e2).s_div(denom);
        let w1 = pv.s_dot(s).s_div(denom);
        let w2 = qv.s_dot(ray.dir).s_div(denom);
        let w0 = Fx { raw: FRAC }.s_sub(w1).s_sub(w2);
        if t.raw < 0 || w0.raw < 0 || w0.raw > FRAC || w1.raw < 0 || w1.raw > FRAC || w2.raw < 0
            || w2.raw > FRAC {
            Option::None
        } else {
            let n = n0.s_scale(w0).s_add(n1.s_scale(w1)).s_add(n2.s_scale(w2)).s_normalize();
            let nf = if ray.dir.s_dot(e1.s_cross(e2)).raw <= 0 {
                n
            } else {
                n.s_neg()
            };
            Option::Some(
                Intersection {
                    t,
                    pos: ray.s_at(t),
                    normal: nf,
                    local_frame: Mat4::s_identity(),
                    material,
                },
            )
        }
    }
}

/// Nearest triangle hit over a face list, first to last.
pub open spec fn s_mesh_hit(material: Material, polys: Seq<Polygon>, ray: Ray) -> Option<
    Intersection,
>
    decreases polys, 0int,
{
    if polys.len() == 0 {
        Option::None
    } else {
        s_nearest(
            s_mesh_hit(material, polys.drop_last(), ray),
            s_triangle_hit(material, polys.last(), ray),
        )
    }
}

/// The full model of `Shape::intersect`: carry the ray into local space,
/// solve the variant there, carry a hit back to world space.
pub open spec fn s_intersect(shape: Shape, ray: Ray) -> Option<Intersection>
    decreases shape, 1int,
{
    let local = shape.transform.s_inv_ray(ray);
    match s_intersect_local(shape, local) {
        Option::Some(h) => Option::Some(shape.transform.s_transform_intersection(h)),
        Option::None => Option::None,
    }
}

/// The variant dispatch of the model, in the shape's local space.
pub open spec fn s_intersect_local(shape: Shape, ray: Ray) -> Option<Intersection>
    decreases shape, 0int,
{
    match shape.mesh {
        Mesh::Sphere { radius } => s_sphere_hit(shape.material, radius, ray),
        Mesh::Cube { size } => s_cube_hit(shape.material, size, ray),
        Mesh::InfinitePlane => s_plane_hit(shape.material, ray),
        Mesh::Polygons { obj } => s_mesh_hit(shape.material, obj.polygons@, ray),
        Mesh::CompositeShape { shapes } => s_children_hit(shapes@, ray),
    }
}

/// Nearest hit over a child list, first to last; each child applies its
/// own placement to the ray it is handed.
pub open spec fn s_children_hit(shapes: Seq<Shape>, ray: Ray) -> Option<Intersection>
    decreases shapes, 2int,
{
    if shapes.len() == 0 {
        Option::None
    } else {
        s_nearest(s_children_hit(shapes.drop_last(), ray), s_intersect(shapes.last(), ray))
    }
}

/// What every produced hit satisfies, given a well-formed material.
pub open spec fn hit_wf(r: Option<Intersection>) -> bool {
    match r {
        Option::Some(h) => h.wf(),
        Option::None => true,
    }
}


fn nearest(cur: Option<Intersection>, new: Option<Intersection>) -> (r: Option<Intersection>)
    ensures
        r == s_nearest(cur, new),
{
    match new {
        Option::None => cur,
        Option::Some(n) => match cur {
            Option::None => Option::Some(n),
            Option::Some(c) => if n.t.raw < c.t.raw {
                Option::Some(n)
            } else {
                Option::Some(c)
            },
        },
    }
}

fn sphere_hit(material: Material, radius: Fx, ray: Ray) -> (r: Option<Intersection>)
    requires
        material.wf(),
        radius.wf(),
        ray.wf(),
    ensures
        r == s_sphere_hit(material, radius, ray),
        hit_wf(r),
{
    proof {
        reveal(s_sphere_hit);
    }
    let a = ray.dir.dot(ray.dir);
    let b = Fx { raw: 131072 }.mul(ray.dir.dot(ray.pos));
    let c = ray.pos.dot(ray.pos).sub(radius.mul(radius));
    if a.raw == 0 {
        return None;
    }
    let d = b.mul(b).sub(Fx { raw: 262144 }.mul(a.mul(c)));
    if d.raw < 0 {
        return None;
    }
    let t0 = if d.raw == 0 {
        Fx { raw: -32768 }.mul(b).div(a)
    } else {
        let sq = d.sqrt();
        let q = if b.raw > 0 {
            Fx { raw: -32768 }.mul(b.add(sq))
        } else {
            Fx { raw: -32768 }.mul(b.sub(sq))
        };
        let ta = q.div(a);
        let tb = if q.raw == 0 {
            ta
        } else {
            c.div(q)
        };
        ta.min(tb)
    };
    if t0.raw < 0 {
        None
    } else {
        let p = ray.at(t0);
        Some(
            Intersection {
                t: t0,
                pos: p,
                normal: p.normalize(),
                local_frame: Mat4::identity(),
                material,
            },
        )
    }
}

fn axis_slab(pos: Fx, size: Fx, dir: Fx) -> (r: Slab)
    requires
        pos.wf(),
        size.wf(),
        dir.wf(),
    ensures
        r == s_axis_slab(pos, size, dir),
        r.wf(),
{
    let h = size.mul(Fx { raw: 32768 });
    if dir.raw == 0 {
        if -h.raw <= pos.raw && pos.raw <= h.raw {
            Slab::Full
        } else {
            Slab::Empty
        }
    } else {
        let t1 = h.neg().sub(pos).div(dir);
        let t2 = h.sub(pos).div(dir);
        Slab::Range { lo: t1.min(t2), hi: t1.max(t2) }
    }
}

fn slab_and(a: Slab, b: Slab) -> (r: Slab)
    requires
        a.wf(),
        b.wf(),
    ensures
        r == s_slab_and(a, b),
        r.wf(),
{
    match a {
        Slab::Empty => Slab::Empty,
        Slab::Full => b,
        Slab::Range { lo: l1, hi: h1 } => match b {
            Slab::Empty => Slab::Empty,
            Slab::Full => Slab::Range { lo: l1, hi: h1 },
            Slab::Range { lo: l2, hi: h2 } => Slab::Range { lo: l1.max(l2), hi: h1.min(h2) },
        },
    }
}

fn cube_hit(material: Material, size: Vec3, ray: Ray) -> (r: Option<Intersection>)
    requires
        material.wf(),
        size.wf(),
        size.x.raw > 0,
        size.y.raw > 0,
        size.z.raw > 0,
        ray.wf(),
    ensures
        r == s_cube_hit(material, size, ray),
        hit_wf(r),
{
    proof {
        reveal(s_cube_hit);
    }
    let sx = axis_slab(ray.pos.x, size.x, ray.dir.x);
    let sy = axis_slab(ray.pos.y, size.y, ray.dir.y);
    let sz = axis_slab(ray.pos.z, size.z, ray.dir.z);
    match slab_and(slab_and(sx, sy), sz) {
        Slab::Empty => None,
        Slab::Full => None,
        Slab::Range { lo: tmin, hi: tmax } => {
            if tmax.raw < 0 || tmin.raw > tmax.raw || tmin.raw < 0 {
                None
            } else {
                let pos = ray.at(tmin);
                let kx = if pos.x.div(size.x).abs().raw * 2 < 65535 {
                    Fx { raw: 0 }
                } else {
                    pos.x
                };
                let ky = if pos.y.div(size.y).abs().raw * 2 < 65535 {
                    Fx { raw: 0 }
                } else {
                    pos.y
                };
                let kz = if pos.z.div(size.z).abs().raw * 2 < 65535 {
                    Fx { raw: 0 }
                } else {
                    pos.z
                };
                let n = Vec3 { x: kx, y: ky, z: kz }.normalize().normalize();
                Some(
                    Intersection {
                        t: tmin,
                        pos,
                        normal: n,
                        local_frame: Mat4::identity(),
                        material,
                    },
                )
            }
        },
    }
}

fn plane_hit(material: Material, ray: Ray) -> (r: Option<Intersection>)
    requires
        material.wf(),
        ray.wf(),
    ensures
        r == s_plane_hit(material, ray),
        hit_wf(r),
{
    proof {
        reveal(s_plane_hit);
    }
    if ray.dir.y.raw == 0 {
        return None;
    }
    let t = ray.pos.y.div(ray.dir.y.neg());
    if t.raw < 0 {
        None
    } else {
        let ny: i64 = if ray.pos.y.raw > 0 {
            FRAC
        } else {
            -FRAC
        };
        Some(
            Intersection {
                t,
                pos: ray.at(t),
                normal: Vec3 { x: Fx { raw: 0 }, y: Fx { raw: ny }, z: Fx { raw: 0 } },
                local_frame: Mat4::identity(),
                material,
            },
        )
    }
}

fn triangle_hit(material: Material, poly: &Polygon, ray: Ray) -> (r: Option<Intersection>)
    requires
        material.wf(),
        poly.wf(),
        ray.wf(),
    ensures
        r == s_triangle_hit(material, *poly, ray),
        hit_wf(r),
{
    proof {
        reveal(s_triangle_hit);
    }
    let p0 = poly.points[0];
    let p1 = poly.points[1];
    let p2 = poly.points[2];
    let n0 = poly.normals[0];
    let n1 = poly.normals[1];
    let n2 = poly.normals[2];
    let e1 = p1.sub(p0);
    let e2 = p2.sub(p0);
    let s = ray.pos.sub(p0);
    let pv = ray.dir.cross(e2);
    let qv = s.cross(e1);
    let denom = pv.dot(e1);
    if denom.raw == 0 {
        return None;
    }
    let t = qv.dot(e2).div(denom);
    let w1 = pv.dot(s).div(denom);
    let w2 = qv.dot(ray.dir).div(denom);
    let w0 = Fx { raw: FRAC }.sub(w1).sub(w2);
    if t.raw < 0 || w0.raw < 0 || w0.raw > FRAC || w1.raw < 0 || w1.raw > FRAC || w2.raw < 0
        || w2.raw > FRAC {
        return None;
    }
    let n = n0.scale(w0).add(n1.scale(w1)).add(n2.scale(w2)).normalize();
    let nf = if ray.dir.dot(e1.cross(e2)).raw <= 0 {
        n
    } else {
        n.neg()
    };
    Some(Intersection { t, pos: ray.at(t), normal: nf, local_frame: Mat4::identity(), material })
}

impl Shape {
    pub fn new(material: Material, transform: Transform, mesh: Mesh) -> (s: Shape)
        requires
            material.wf(),
            transform.wf(),
            transform.invertible(),
            mesh.wf(),
        ensures
            s == (Shape { material, transform, mesh }),
            s.wf(),
    {
        Shape { material, transform, mesh }
    }


    /// Like `new`, but checks at run time that the placement can be
    /// inverted, instead of asking the caller to prove it.
    pub fn try_new(material: Material, transform: Transform, mesh: Mesh) -> (r: Option<Shape>)
        requires
            material.wf(),
            transform.wf(),
            mesh.wf(),
        ensures
            r matches Some(s) ==> s == (Shape { material, transform, mesh }) && s.wf(),
            r is None <==> !transform.invertible(),
    {
        let m = transform.matrix();
        let det = m.determinant();
        if det.raw == 0 {
            None
        } else {
            Some(Shape { material, transform, mesh })
        }
    }

    /// The nearest hit of the ray anywhere in this node's subtree, in
    /// world space; absence means a clean miss.
    pub fn intersect(&self, ray: Ray) -> (r: Option<Intersection>)
        requires
            self.wf(),
            ray.wf(),
        ensures
            r == s_intersect(*self, ray),
            hit_wf(r),
        decreases *self, 1int,
    {
        let local_ray = self.transform.inv_transform_ray(ray);
        let res = match self.intersect_local(local_ray) {
            Some(intersection) => Some(self.transform.transform_intersection(intersection)),
            None => None,
        };
        proof {
            assert(res == s_intersect(*self, ray));
        }
        res
    }

    #[verifier::loop_isolation(false)]
    #[verifier::rlimit(60)]
    fn intersect_local(&self, ray: Ray) -> (r: Option<Intersection>)
        requires
            self.wf(),
            ray.wf(),
        ensures
            r == s_intersect_local(*self, ray),
            hit_wf(r),
        decreases *self, 0int,
    {
        let res = match &self.mesh {
            Mesh::Sphere { radius } => sphere_hit(self.material, *radius, ray),
            Mesh::Cube { size } => cube_hit(self.material, *size, ray),
            Mesh::InfinitePlane => plane_hit(self.material, ray),
            Mesh::Polygons { obj } => {
                let mut cur: Option<Intersection> = None;
                let mut i: usize = 0;
                proof {
                    assert(cur == s_mesh_hit(self.material, obj.polygons@.take(0), ray));
                }
                while i < obj.polygons.len()
                    invariant
                        i <= obj.polygons.len(),
                        cur == s_mesh_hit(self.material, obj.polygons@.take(i as int), ray),
                        hit_wf(cur),
                    decreases obj.polygons.len() - i,
                {
                    let hit = triangle_hit(self.material, &obj.polygons[i], ray);
                    proof {
                        assert(obj.polygons@.take(i as int + 1).drop_last() =~= obj.polygons@.take(
                            i as int,
                        ));
                        assert(obj.polygons@.take(i as int + 1).last() == obj.polygons@[i as int]);
                    }
                    cur = nearest(cur, hit);
                    proof {
                        assert(cur == s_mesh_hit(
                            self.material,
                            obj.polygons@.take(i as int + 1),
                            ray,
                        ));
                    }
                    i = i + 1;
                }
                proof {
                    assert(obj.polygons@.take(obj.polygons@.len() as int) =~= obj.polygons@);
                }
                cur
            },
            Mesh::CompositeShape { shapes } => {
                let mut cur: Option<Intersection> = None;
                let mut i: usize = 0;
                proof {
                    assert(cur == s_children_hit(shapes@.take(0), ray));
                }
                while i < shapes.len()
                    invariant
                        i <= shapes.len(),
                        cur == s_children_hit(shapes@.take(i as int), ray),
                        hit_wf(cur),
                    decreases shapes.len() - i,
                {
                    proof {
                        assert(decreases_to!(*self => self.mesh));
                        assert(decreases_to!(self.mesh => self.mesh->shapes));
                        assert(decreases_to!(self.mesh->shapes => shapes@));
                        assert(decreases_to!(shapes@ => shapes@[i as int]));
                    }
                    let hit = shapes[i].intersect(ray);
                    proof {
                        assert(shapes@.take(i as int + 1).drop_last() =~= shapes@.take(i as int));
                        assert(shapes@.take(i as int + 1).last() == shapes@[i as int]);
                    }
                    cur = nearest(cur, hit);
                    proof {
                        assert(cur == s_children_hit(shapes@.take(i as int + 1), ray));
                    }
                    i = i + 1;
                }
                proof {
                    assert(shapes@.take(shapes@.len() as int) =~= shapes@);
                }
                cur
            },
        };
        proof {
            assert(res == s_intersect_local(*self, ray));
        }
        res
    }
}

} // verus!
