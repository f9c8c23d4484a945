use vstd::prelude::*;

use crate::fixed::Fx;
use crate::material::{Color, Material};
use crate::object::Object;
use crate::quat::Quat;
use crate::shape::{Mesh, Shape};
use crate::transform::Transform;
use crate::vec3::Vec3;

verus! {

/// The two built-in scenes.
pub enum Env {
    Default,
    Teapot { obj: Object },
}

impl Env {
    pub open spec fn wf(self) -> bool {
        match self {
            Env::Default => true,
            Env::Teapot { obj } => obj.wf(),
        }
    }
}

/// Half-angle sine of an eighth of a turn, in scalar steps.
pub const SIN_EIGHTH_TURN: i64 = 25080;

/// Half-angle cosine of an eighth of a turn, in scalar steps.
pub const COS_EIGHTH_TURN: i64 = 60547;

/// Build one of the built-in scenes. Every literal placement is checked
/// for invertibility as it is built; a degenerate one yields nothing
/// rather than a scene that cannot be traced.
pub fn make_env(name: Env) -> (r: Option<Shape>)
    requires
        name.wf(),
    ensures
        r matches Some(s) ==> s.wf(),
{
    match name {
        Env::Default => {
            let mat_s1 = Material::Simple { color: Color::new(255, 0, 0) };
            let mat_s2 = Material::Simple { color: Color::new(0, 255, 0) };
            let mat_c1 = Material::Checkerboard {
                color1: Color::new(255, 255, 0),
                color2: Color::new(0, 255, 255),
                scale: Fx::from_raw(21845),
            };
            let mat_p1 = Material::Checkerboard {
                color1: Color::new(255, 255, 255),
                color2: Color::new(127, 127, 127),
                scale: Fx::one(),
            };
            let black = Material::Simple { color: Color::black() };

            let s1 = Shape::try_new(
                mat_s1,
                Transform::default(),
                Mesh::Sphere { radius: Fx::one() },
            );
            let s2 = Shape::try_new(
                mat_s2,
                Transform::from_t(Vec3::new(Fx::from_int(1), Fx::from_int(1), Fx::from_int(-1))),
                Mesh::Sphere { radius: Fx::from_raw(52429) },
            );
            let c1 = Shape::try_new(
                mat_c1,
                Transform::from_tr(
                    Vec3::new(Fx::from_int(-1), Fx::from_raw(-32768), Fx::zero()),
                    Quat::from_axis_angle(
                        Vec3::new(Fx::one(), Fx::zero(), Fx::zero()),
                        Fx::from_raw(SIN_EIGHTH_TURN),
                        Fx::from_raw(COS_EIGHTH_TURN),
                    ),
                ),
                Mesh::Cube {
                    size: Vec3::new(Fx::one(), Fx::one(), Fx::one()),
                },
            );
            let p1 = Shape::try_new(
                mat_p1,
                Transform::from_t(Vec3::new(Fx::zero(), Fx::from_int(-2), Fx::zero())),
                Mesh::InfinitePlane,
            );
            match (s1, s2, c1, p1) {
                (Some(s1), Some(s2), Some(c1), Some(p1)) => {
                    let mut inner: Vec<Shape> = Vec::new();
                    inner.push(s1);
                    inner.push(s2);
                    inner.push(c1);
                    proof {
                        assert forall|i: int| 0 <= i < inner@.len() implies inner@[i].wf() by {}
                    }
                    let env_shapes = Shape::try_new(
                        black,
                        Transform::from_trs(
                            Vec3::new(Fx::zero(), Fx::zero(), Fx::from_int(-3)),
                            Quat::from_axis_angle(
                                Vec3::new(Fx::zero(), Fx::one(), Fx::zero()),
                                Fx::from_raw(SIN_EIGHTH_TURN),
                                Fx::from_raw(COS_EIGHTH_TURN),
                            ),
                            Vec3::new(Fx::from_raw(45875), Fx::one(), Fx::one()),
                        ),
                        Mesh::CompositeShape { shapes: inner },
                    );
                    match env_shapes {
                        Some(env_shapes) => {
                            let mut top: Vec<Shape> = Vec::new();
                            top.push(p1);
                            top.push(env_shapes);
                            proof {
                                assert forall|i: int| 0 <= i < top@.len() implies top@[i].wf()
                                    by {}
                            }
                            Shape::try_new(
                                black,
                                Transform::default(),
                                Mesh::CompositeShape { shapes: top },
                            )
                        },
                        None => None,
                    }
                },
                _ => None,
            }
        },
        Env::Teapot { obj } => {
            let mat_p = Material::Checkerboard {
                color1: Color::new(0, 255, 255),
                color2: Color::new(0, 127, 127),
                scale: Fx::one(),
            };
            let white = Material::Simple { color: Color::new(255, 255, 255) };
            let mat_teapot = Material::Simple { color: Color::black() };

            let p = Shape::try_new(mat_p, Transform::default(), Mesh::InfinitePlane);
            let teapot = Shape::try_new(white, Transform::default(), Mesh::Polygons { obj });
            match (p, teapot) {
                (Some(p), Some(teapot)) => {
                    let mut kids: Vec<Shape> = Vec::new();
                    kids.push(teapot);
                    kids.push(p);
                    proof {
                        assert forall|i: int| 0 <= i < kids@.len() implies kids@[i].wf() by {}
                    }
                    Shape::try_new(
                        mat_teapot,
                        Transform::from_tr(
                            Vec3::new(Fx::zero(), Fx::from_raw(-52429), Fx::from_int(-6)),
                            Quat::from_axis_angle(
                                Vec3::new(Fx::one(), Fx::zero(), Fx::zero()),
                                Fx::from_raw(SIN_EIGHTH_TURN),
                                Fx::from_raw(COS_EIGHTH_TURN),
                            ),
                        ),
                        Mesh::CompositeShape { shapes: kids },
                    )
                },
                _ => None,
            }
        },
    }
}

} // verus!
