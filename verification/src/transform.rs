use vstd::prelude::*;

use crate::fixed::{Fx, FRAC};
use crate::mat4::Mat4;
use crate::quat::Quat;
use crate::ray::{Intersection, Ray};
use crate::vec3::Vec3;

verus! {

/// Placement of a shape: translation, rotation and per-axis scale,
/// composed into one homogeneous matrix as translation first.
#[derive(Clone, Copy, Debug, PartialEq, Eq, Structural)]
pub struct Transform {
    pub translation: Vec3,
    pub rotation: Quat,
    pub scale: Vec3,
}

impl Transform {
    pub open spec fn wf(self) -> bool {
        self.translation.wf() && self.rotation.wf() && self.scale.wf()
    }

    /// The composed placement matrix.
    #[verifier::opaque]
    pub open spec fn s_matrix(self) -> Mat4 {
        Mat4::s_from_translation(self.translation).s_mul_mat(
            Mat4::s_from_quat(self.rotation),
        ).s_mul_mat(Mat4::s_from_scale(self.scale))
    }

    /// Invertible placements are the ones rays can be carried through.
    pub open spec fn invertible(self) -> bool {
        self.s_matrix().s_det().raw != 0
    }

    /// The incoming world ray, carried into this placement's local space:
    /// the origin as a point (weight one), the direction as a direction
    /// (weight zero, so translation does not move it).
    pub open spec fn s_inv_ray(self, ray: Ray) -> Ray {
        let mi = self.s_matrix().s_inv();
        Ray { pos: mi.s_point(ray.pos), dir: mi.s_dir(ray.dir) }
    }

    /// A locally computed hit, carried back to world space: the position by
    /// the forward matrix, the normal by the inverse transpose, and the
    /// accumulated frame extended on the left by this placement.
    pub open spec fn s_transform_intersection(self, local: Intersection) -> Intersection {
        let m = self.s_matrix();
        let mit = m.s_inv().s_transpose();
        Intersection {
            t: local.t,
            pos: m.s_point(local.pos),
            normal: mit.s_dir(local.normal),
            local_frame: m.s_mul_mat(local.local_frame),
            material: local.material,
        }
    }

    /// The identity placement.
    pub fn default() -> (t: Transform)
        ensures
            t == (Transform {
                translation: Vec3 { x: Fx { raw: 0 }, y: Fx { raw: 0 }, z: Fx { raw: 0 } },
                rotation: Quat { x: Fx { raw: 0 }, y: Fx { raw: 0 }, z: Fx { raw: 0 }, w: Fx { raw: FRAC } },
                scale: Vec3 { x: Fx { raw: FRAC }, y: Fx { raw: FRAC }, z: Fx { raw: FRAC } },
            }),
            t.wf(),
    {
        Transform {
            translation: Vec3::zero(),
            rotation: Quat::default(),
            scale: Vec3 { x: Fx { raw: FRAC }, y: Fx { raw: FRAC }, z: Fx { raw: FRAC } },
        }
    }

    /// Translation only.
    pub fn from_t(t: Vec3) -> (r: Transform)
        requires
            t.wf(),
        ensures
            r == (Transform {
                translation: t,
                rotation: Quat { x: Fx { raw: 0 }, y: Fx { raw: 0 }, z: Fx { raw: 0 }, w: Fx { raw: FRAC } },
                scale: Vec3 { x: Fx { raw: FRAC }, y: Fx { raw: FRAC }, z: Fx { raw: FRAC } },
            }),
            r.wf(),
    {
        Transform {
            translation: t,
            rotation: Quat::default(),
            scale: Vec3 { x: Fx { raw: FRAC }, y: Fx { raw: FRAC }, z: Fx { raw: FRAC } },
        }
    }

    /// Translation and rotation.
    pub fn from_tr(t: Vec3, r: Quat) -> (res: Transform)
        requires
            t.wf(),
            r.wf(),
        ensures
            res == (Transform {
                translation: t,
                rotation: r,
                scale: Vec3 { x: Fx { raw: FRAC }, y: Fx { raw: FRAC }, z: Fx { raw: FRAC } },
            }),
            res.wf(),
    {
        Transform {
            translation: t,
            rotation: r,
            scale: Vec3 { x: Fx { raw: FRAC }, y: Fx { raw: FRAC }, z: Fx { raw: FRAC } },
        }
    }

    /// Translation, rotation and scale.
    pub fn from_trs(t: Vec3, r: Quat, s: Vec3) -> (res: Transform)
        requires
            t.wf(),
            r.wf(),
            s.wf(),
        ensures
            res == (Transform { translation: t, rotation: r, scale: s }),
            res.wf(),
    {
        Transform { translation: t, rotation: r, scale: s }
    }

    pub fn matrix(&self) -> (m: Mat4)
        requires
            self.wf(),
        ensures
            m == self.s_matrix(),
            m.wf(),
    {
        proof {
            reveal(Transform::s_matrix);
        }
        let matrix_t = Mat4::from_translation(self.translation);
        let matrix_r = Mat4::from_quat(self.rotation);
        let matrix_s = Mat4::from_scale(self.scale);
        matrix_t.mul(&matrix_r).mul(&matrix_s)
    }

    pub fn inv_transform_ray(&self, ray: Ray) -> (r: Ray)
        requires
            self.wf(),
            ray.wf(),
            self.invertible(),
        ensures
            r == self.s_inv_ray(ray),
            r.wf(),
    {
        let m = self.matrix();
        let m_inv = match m.invert() {
            Some(mi) => mi,
            None => {
                proof {
                    assert(false);
                }
                Mat4::identity()
            },
        };
        Ray { pos: m_inv.point(ray.pos), dir: m_inv.dir(ray.dir) }
    }

    pub fn transform_intersection(&self, local_intersection: Intersection) -> (r: Intersection)
        requires
            self.wf(),
            local_intersection.t.wf(),
            local_intersection.pos.wf(),
            local_intersection.normal.wf(),
            local_intersection.local_frame.wf(),
            self.invertible(),
        ensures
            r == self.s_transform_intersection(local_intersection),
            r.t == local_intersection.t,
            r.material == local_intersection.material,
            r.pos.wf(),
            r.normal.wf(),
            r.local_frame.wf(),
    {
        let m = self.matrix();
        let m_inv = match m.invert() {
            Some(mi) => mi,
            None => {
                proof {
                    assert(false);
                }
                Mat4::identity()
            },
        };
        Intersection {
            t: local_intersection.t,
            pos: m.point(local_intersection.pos),
            normal: m_inv.transpose().dir(local_intersection.normal),
            local_frame: m.mul(&local_intersection.local_frame),
            material: local_intersection.material,
        }
    }
}

} // verus!
