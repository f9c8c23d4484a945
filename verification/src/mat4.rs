use vstd::prelude::*;

use crate::fixed::{Fx, FRAC};
use crate::mat3::Mat3;
use crate::quat::Quat;
use crate::vec3::Vec3;
use crate::vec4::Vec4;

verus! {

/// A 4x4 homogeneous transform, stored as four column vectors.
#[derive(Clone, Copy, Debug, PartialEq, Eq, Structural)]
pub struct Mat4 {
    pub x: Vec4,
    pub y: Vec4,
    pub z: Vec4,
    pub w: Vec4,
}

impl Mat4 {
    pub open spec fn wf(self) -> bool {
        self.x.wf() && self.y.wf() && self.z.wf() && self.w.wf()
    }

    pub open spec fn s_identity() -> Mat4 {
        let o = Fx { raw: FRAC };
        let n = Fx { raw: 0 };
        Mat4 {
            x: Vec4 { x: o, y: n, z: n, w: n },
            y: Vec4 { x: n, y: o, z: n, w: n },
            z: Vec4 { x: n, y: n, z: o, w: n },
            w: Vec4 { x: n, y: n, z: n, w: o },
        }
    }

    pub open spec fn s_transpose(self) -> Mat4 {
        Mat4 {
            x: Vec4 { x: self.x.x, y: self.y.x, z: self.z.x, w: self.w.x },
            y: Vec4 { x: self.x.y, y: self.y.y, z: self.z.y, w: self.w.y },
            z: Vec4 { x: self.x.z, y: self.y.z, z: self.z.z, w: self.w.z },
            w: Vec4 { x: self.x.w, y: self.y.w, z: self.z.w, w: self.w.w },
        }
    }

    /// Determinant by cofactor expansion along the first row.
    #[verifier::opaque]
    pub open spec fn s_det(self) -> Fx {
        let v0 = self.x.s_truncate(0);
        let v1 = self.y.s_truncate(0);
        let v2 = self.z.s_truncate(0);
        let v3 = self.w.s_truncate(0);
        let m0 = Mat3 { x: v1, y: v2, z: v3 };
        let m1 = Mat3 { x: v0, y: v2, z: v3 };
        let m2 = Mat3 { x: v0, y: v1, z: v3 };
        let m3 = Mat3 { x: v0, y: v1, z: v2 };
        self.x.x.s_mul(m0.s_det()).s_sub(self.y.x.s_mul(m1.s_det())).s_add(
            self.z.x.s_mul(m2.s_det()),
        ).s_sub(self.w.x.s_mul(m3.s_det()))
    }

    /// Minor formed by dropping column `i` and coordinate `j` of `self`;
    /// in the inverse it is taken on the transpose.
    #[verifier::opaque]
    pub open spec fn s_cof(self, i: int, j: int) -> Fx {
        let m = if i == 0 {
            Mat3 { x: self.y.s_truncate(j), y: self.z.s_truncate(j), z: self.w.s_truncate(j) }
        } else if i == 1 {
            Mat3 { x: self.x.s_truncate(j), y: self.z.s_truncate(j), z: self.w.s_truncate(j) }
        } else if i == 2 {
            Mat3 { x: self.x.s_truncate(j), y: self.y.s_truncate(j), z: self.w.s_truncate(j) }
        } else {
            Mat3 { x: self.x.s_truncate(j), y: self.y.s_truncate(j), z: self.z.s_truncate(j) }
        };
        m.s_det()
    }

    /// Inverse entry at column `i`, row `j`: the signed minor over the determinant.
    #[verifier::opaque]
    pub open spec fn s_inv_entry(self, i: int, j: int) -> Fx {
        let c = self.s_transpose().s_cof(i, j);
        let sc = if (i + j) % 2 == 1 {
            c.s_neg()
        } else {
            c
        };
        sc.s_div(self.s_det())
    }

    /// The inverse matrix, meaningful when the determinant is non-zero.
    #[verifier::opaque]
    pub open spec fn s_inv(self) -> Mat4 {
        Mat4 {
            x: Vec4 {
                x: self.s_inv_entry(0, 0),
                y: self.s_inv_entry(0, 1),
                z: self.s_inv_entry(0, 2),
                w: self.s_inv_entry(0, 3),
            },
            y: Vec4 {
                x: self.s_inv_entry(1, 0),
                y: self.s_inv_entry(1, 1),
                z: self.s_inv_entry(1, 2),
                w: self.s_inv_entry(1, 3),
            },
            z: Vec4 {
                x: self.s_inv_entry(2, 0),
                y: self.s_inv_entry(2, 1),
                z: self.s_inv_entry(2, 2),
                w: self.s_inv_entry(2, 3),
            },
            w: Vec4 {
                x: self.s_inv_entry(3, 0),
                y: self.s_inv_entry(3, 1),
                z: self.s_inv_entry(3, 2),
                w: self.s_inv_entry(3, 3),
            },
        }
    }

    /// Matrix product: each entry is a row of `self` against a column of `rhs`.
    pub open spec fn s_mul_mat(self, rhs: Mat4) -> Mat4 {
        let t = self.s_transpose();
        Mat4 {
            x: Vec4 {
                x: Vec4::s_dot(t.x, rhs.x),
                y: Vec4::s_dot(t.y, rhs.x),
                z: Vec4::s_dot(t.z, rhs.x),
                w: Vec4::s_dot(t.w, rhs.x),
            },
            y: Vec4 {
                x: Vec4::s_dot(t.x, rhs.y),
                y: Vec4::s_dot(t.y, rhs.y),
                z: Vec4::s_dot(t.z, rhs.y),
                w: Vec4::s_dot(t.w, rhs.y),
            },
            z: Vec4 {
                x: Vec4::s_dot(t.x, rhs.z),
                y: Vec4::s_dot(t.y, rhs.z),
                z: Vec4::s_dot(t.z, rhs.z),
                w: Vec4::s_dot(t.w, rhs.z),
            },
            w: Vec4 {
                x: Vec4::s_dot(t.x, rhs.w),
                y: Vec4::s_dot(t.y, rhs.w),
                z: Vec4::s_dot(t.z, rhs.w),
                w: Vec4::s_dot(t.w, rhs.w),
            },
        }
    }

    /// Matrix applied to a homogeneous vector.
    pub open spec fn s_mul_vec(self, v: Vec4) -> Vec4 {
        let t = self.s_transpose();
        Vec4 {
            x: Vec4::s_dot(t.x, v),
            y: Vec4::s_dot(t.y, v),
            z: Vec4::s_dot(t.z, v),
            w: Vec4::s_dot(t.w, v),
        }
    }

    pub fn new(x: Vec4, y: Vec4, z: Vec4, w: Vec4) -> (r: Mat4)
        requires
            x.wf(),
            y.wf(),
            z.wf(),
            w.wf(),
        ensures
            r == (Mat4 { x, y, z, w }),
            r.wf(),
    {
        Mat4 { x, y, z, w }
    }

    pub fn zero() -> (r: Mat4)
        ensures
            r == (Mat4 { x: Vec4 { x: Fx { raw: 0 }, y: Fx { raw: 0 }, z: Fx { raw: 0 }, w: Fx { raw: 0 } },
                         y: Vec4 { x: Fx { raw: 0 }, y: Fx { raw: 0 }, z: Fx { raw: 0 }, w: Fx { raw: 0 } },
                         z: Vec4 { x: Fx { raw: 0 }, y: Fx { raw: 0 }, z: Fx { raw: 0 }, w: Fx { raw: 0 } },
                         w: Vec4 { x: Fx { raw: 0 }, y: Fx { raw: 0 }, z: Fx { raw: 0 }, w: Fx { raw: 0 } } }),
            r.wf(),
    {
        Mat4 { x: Vec4::zero(), y: Vec4::zero(), z: Vec4::zero(), w: Vec4::zero() }
    }

    pub fn identity() -> (r: Mat4)
        ensures
            r == Mat4::s_identity(),
            r.wf(),
    {
        let o = Fx { raw: FRAC };
        let n = Fx { raw: 0 };
        Mat4 {
            x: Vec4 { x: o, y: n, z: n, w: n },
            y: Vec4 { x: n, y: o, z: n, w: n },
            z: Vec4 { x: n, y: n, z: o, w: n },
            w: Vec4 { x: n, y: n, z: n, w: o },
        }
    }

    /// Rotation matrix of a quaternion.
    #[verifier::opaque]
    pub open spec fn s_from_quat(q: Quat) -> Mat4 {
        let o = Fx { raw: FRAC };
        let n = Fx { raw: 0 };
        let two = Fx { raw: 131072 };
        Mat4 {
            x: Vec4 {
                x: o.s_sub(two.s_mul(q.y.s_mul(q.y))).s_sub(two.s_mul(q.z.s_mul(q.z))),
                y: two.s_mul(q.x.s_mul(q.y)).s_add(two.s_mul(q.z.s_mul(q.w))),
                z: two.s_mul(q.x.s_mul(q.z)).s_sub(two.s_mul(q.y.s_mul(q.w))),
                w: n,
            },
            y: Vec4 {
                x: two.s_mul(q.x.s_mul(q.y)).s_sub(two.s_mul(q.z.s_mul(q.w))),
                y: o.s_sub(two.s_mul(q.x.s_mul(q.x))).s_sub(two.s_mul(q.z.s_mul(q.z))),
                z: two.s_mul(q.y.s_mul(q.z)).s_add(two.s_mul(q.x.s_mul(q.w))),
                w: n,
            },
            z: Vec4 {
                x: two.s_mul(q.x.s_mul(q.z)).s_add(two.s_mul(q.y.s_mul(q.w))),
                y: two.s_mul(q.y.s_mul(q.z)).s_sub(two.s_mul(q.x.s_mul(q.w))),
                z: o.s_sub(two.s_mul(q.x.s_mul(q.x))).s_sub(two.s_mul(q.y.s_mul(q.y))),
                w: n,
            },
            w: Vec4 { x: n, y: n, z: n, w: o },
        }
    }

    pub fn from_quat(q: Quat) -> (r: Mat4)
        requires
            q.wf(),
        ensures
            r == Mat4::s_from_quat(q),
            r.wf(),
    {
        proof {
            reveal(Mat4::s_from_quat);
        }
        let o = Fx { raw: FRAC };
        let n = Fx { raw: 0 };
        let two = Fx { raw: 131072 };
        Mat4 {
            x: Vec4 {
                x: o.sub(two.mul(q.y.mul(q.y))).sub(two.mul(q.z.mul(q.z))),
                y: two.mul(q.x.mul(q.y)).add(two.mul(q.z.mul(q.w))),
                z: two.mul(q.x.mul(q.z)).sub(two.mul(q.y.mul(q.w))),
                w: n,
            },
            y: Vec4 {
                x: two.mul(q.x.mul(q.y)).sub(two.mul(q.z.mul(q.w))),
                y: o.sub(two.mul(q.x.mul(q.x))).sub(two.mul(q.z.mul(q.z))),
                z: two.mul(q.y.mul(q.z)).add(two.mul(q.x.mul(q.w))),
                w: n,
            },
            z: Vec4 {
                x: two.mul(q.x.mul(q.z)).add(two.mul(q.y.mul(q.w))),
                y: two.mul(q.y.mul(q.z)).sub(two.mul(q.x.mul(q.w))),
                z: o.sub(two.mul(q.x.mul(q.x))).sub(two.mul(q.y.mul(q.y))),
                w: n,
            },
            w: Vec4 { x: n, y: n, z: n, w: o },
        }
    }

    /// Translation matrix: identity with the offset in the last column.
    pub open spec fn s_from_translation(v: Vec3) -> Mat4 {
        let o = Fx { raw: FRAC };
        let n = Fx { raw: 0 };
        Mat4 {
            x: Vec4 { x: o, y: n, z: n, w: n },
            y: Vec4 { x: n, y: o, z: n, w: n },
            z: Vec4 { x: n, y: n, z: o, w: n },
            w: Vec4 { x: v.x, y: v.y, z: v.z, w: o },
        }
    }

    pub fn from_translation(v: Vec3) -> (r: Mat4)
        requires
            v.wf(),
        ensures
            r == Mat4::s_from_translation(v),
            r.wf(),
    {
        let o = Fx { raw: FRAC };
        let n = Fx { raw: 0 };
        Mat4 {
            x: Vec4 { x: o, y: n, z: n, w: n },
            y: Vec4 { x: n, y: o, z: n, w: n },
            z: Vec4 { x: n, y: n, z: o, w: n },
            w: Vec4 { x: v.x, y: v.y, z: v.z, w: o },
        }
    }

    /// Scale matrix: the factors on the diagonal.
    pub open spec fn s_from_scale(v: Vec3) -> Mat4 {
        let o = Fx { raw: FRAC };
        let n = Fx { raw: 0 };
        Mat4 {
            x: Vec4 { x: v.x, y: n, z: n, w: n },
            y: Vec4 { x: n, y: v.y, z: n, w: n },
            z: Vec4 { x: n, y: n, z: v.z, w: n },
            w: Vec4 { x: n, y: n, z: n, w: o },
        }
    }

    pub fn from_scale(v: Vec3) -> (r: Mat4)
        requires
            v.wf(),
        ensures
            r == Mat4::s_from_scale(v),
            r.wf(),
    {
        let o = Fx { raw: FRAC };
        let n = Fx { raw: 0 };
        Mat4 {
            x: Vec4 { x: v.x, y: n, z: n, w: n },
            y: Vec4 { x: n, y: v.y, z: n, w: n },
            z: Vec4 { x: n, y: n, z: v.z, w: n },
            w: Vec4 { x: n, y: n, z: n, w: o },
        }
    }

    pub fn transpose(&self) -> (r: Mat4)
        requires
            self.wf(),
        ensures
            r == self.s_transpose(),
            r.wf(),
    {
        Mat4 {
            x: Vec4 { x: self.x.x, y: self.y.x, z: self.z.x, w: self.w.x },
            y: Vec4 { x: self.x.y, y: self.y.y, z: self.z.y, w: self.w.y },
            z: Vec4 { x: self.x.z, y: self.y.z, z: self.z.z, w: self.w.z },
            w: Vec4 { x: self.x.w, y: self.y.w, z: self.z.w, w: self.w.w },
        }
    }

    pub fn determinant(&self) -> (r: Fx)
        requires
            self.wf(),
        ensures
            r == self.s_det(),
            r.wf(),
    {
        proof {
            reveal(Mat4::s_det);
        }
        let v0 = self.x.truncate(0);
        let v1 = self.y.truncate(0);
        let v2 = self.z.truncate(0);
        let v3 = self.w.truncate(0);
        let m0 = Mat3::from_cols(v1, v2, v3);
        let m1 = Mat3::from_cols(v0, v2, v3);
        let m2 = Mat3::from_cols(v0, v1, v3);
        let m3 = Mat3::from_cols(v0, v1, v2);
        self.x.x.mul(m0.determinant()).sub(self.y.x.mul(m1.determinant())).add(
            self.z.x.mul(m2.determinant()),
        ).sub(self.w.x.mul(m3.determinant()))
    }

    fn cofactor(t: &Mat4, i: usize, j: usize) -> (r: Fx)
        requires
            t.wf(),
            i <= 3,
            j <= 3,
        ensures
            r == t.s_cof(i as int, j as int),
            r.wf(),
    {
        proof {
            reveal(Mat4::s_cof);
        }
        let m = if i == 0 {
            Mat3::from_cols(t.y.truncate(j), t.z.truncate(j), t.w.truncate(j))
        } else if i == 1 {
            Mat3::from_cols(t.x.truncate(j), t.z.truncate(j), t.w.truncate(j))
        } else if i == 2 {
            Mat3::from_cols(t.x.truncate(j), t.y.truncate(j), t.w.truncate(j))
        } else {
            Mat3::from_cols(t.x.truncate(j), t.y.truncate(j), t.z.truncate(j))
        };
        m.determinant()
    }

    /// Inverse by the adjugate over the determinant; a singular matrix
    /// (determinant exactly zero) has none.
    pub fn invert(&self) -> (r: Option<Mat4>)
        requires
            self.wf(),
        ensures
            self.s_det().raw == 0 <==> r is None,
            self.s_det().raw != 0 ==> r == Some(self.s_inv()),
            r is Some ==> r->0.wf(),
    {
        proof {
            reveal(Mat4::s_inv);
        }
        let det = self.determinant();
        if det.raw == 0 {
            None
        } else {
            let t = self.transpose();
            let e00 = Mat4::inv_entry(self, &t, det, 0, 0);
            let e01 = Mat4::inv_entry(self, &t, det, 0, 1);
            let e02 = Mat4::inv_entry(self, &t, det, 0, 2);
            let e03 = Mat4::inv_entry(self, &t, det, 0, 3);
            let e10 = Mat4::inv_entry(self, &t, det, 1, 0);
            let e11 = Mat4::inv_entry(self, &t, det, 1, 1);
            let e12 = Mat4::inv_entry(self, &t, det, 1, 2);
            let e13 = Mat4::inv_entry(self, &t, det, 1, 3);
            let e20 = Mat4::inv_entry(self, &t, det, 2, 0);
            let e21 = Mat4::inv_entry(self, &t, det, 2, 1);
            let e22 = Mat4::inv_entry(self, &t, det, 2, 2);
            let e23 = Mat4::inv_entry(self, &t, det, 2, 3);
            let e30 = Mat4::inv_entry(self, &t, det, 3, 0);
            let e31 = Mat4::inv_entry(self, &t, det, 3, 1);
            let e32 = Mat4::inv_entry(self, &t, det, 3, 2);
            let e33 = Mat4::inv_entry(self, &t, det, 3, 3);
            Some(
                Mat4 {
                    x: Vec4 { x: e00, y: e01, z: e02, w: e03 },
                    y: Vec4 { x: e10, y: e11, z: e12, w: e13 },
                    z: Vec4 { x: e20, y: e21, z: e22, w: e23 },
                    w: Vec4 { x: e30, y: e31, z: e32, w: e33 },
                },
            )
        }
    }

    fn inv_entry(m: &Mat4, t: &Mat4, det: Fx, i: usize, j: usize) -> (r: Fx)
        requires
            m.wf(),
            t == m.s_transpose(),
            det == m.s_det(),
            det.wf(),
            det.raw != 0,
            i <= 3,
            j <= 3,
        ensures
            r == m.s_inv_entry(i as int, j as int),
            r.wf(),
    {
        proof {
            reveal(Mat4::s_inv_entry);
        }
        let c = Mat4::cofactor(t, i, j);
        let sc = if (i + j) % 2 == 1 {
            c.neg()
        } else {
            c
        };
        sc.div(det)
    }

    pub fn mul(&self, rhs: &Mat4) -> (r: Mat4)
        requires
            self.wf(),
            rhs.wf(),
        ensures
            r == self.s_mul_mat(*rhs),
            r.wf(),
    {
        let t = self.transpose();
        Mat4 {
            x: Vec4 {
                x: Vec4::dot(t.x, rhs.x),
                y: Vec4::dot(t.y, rhs.x),
                z: Vec4::dot(t.z, rhs.x),
                w: Vec4::dot(t.w, rhs.x),
            },
            y: Vec4 {
                x: Vec4::dot(t.x, rhs.y),
                y: Vec4::dot(t.y, rhs.y),
                z: Vec4::dot(t.z, rhs.y),
                w: Vec4::dot(t.w, rhs.y),
            },
            z: Vec4 {
                x: Vec4::dot(t.x, rhs.z),
                y: Vec4::dot(t.y, rhs.z),
                z: Vec4::dot(t.z, rhs.z),
                w: Vec4::dot(t.w, rhs.z),
            },
            w: Vec4 {
                x: Vec4::dot(t.x, rhs.w),
                y: Vec4::dot(t.y, rhs.w),
                z: Vec4::dot(t.z, rhs.w),
                w: Vec4::dot(t.w, rhs.w),
            },
        }
    }

    pub fn mul_vec(&self, v: Vec4) -> (r: Vec4)
        requires
            self.wf(),
            v.wf(),
        ensures
            r == self.s_mul_vec(v),
            r.wf(),
    {
        let t = self.transpose();
        Vec4 {
            x: Vec4::dot(t.x, v),
            y: Vec4::dot(t.y, v),
            z: Vec4::dot(t.z, v),
            w: Vec4::dot(t.w, v),
        }
    }

    /// Matrix applied to a point: homogeneous weight one, so the
    /// translation column takes part.
    pub open spec fn s_point(self, v: Vec3) -> Vec3 {
        let r = self.s_mul_vec(Vec4 { x: v.x, y: v.y, z: v.z, w: Fx { raw: FRAC } });
        Vec3 { x: r.x, y: r.y, z: r.z }
    }

    /// Matrix applied to a direction: homogeneous weight zero, so the
    /// translation column drops out.
    pub open spec fn s_dir(self, v: Vec3) -> Vec3 {
        let r = self.s_mul_vec(Vec4 { x: v.x, y: v.y, z: v.z, w: Fx { raw: 0 } });
        Vec3 { x: r.x, y: r.y, z: r.z }
    }

    pub fn point(&self, v: Vec3) -> (r: Vec3)
        requires
            self.wf(),
            v.wf(),
        ensures
            r == self.s_point(v),
            r.wf(),
    {
        let h = self.mul_vec(Vec4 { x: v.x, y: v.y, z: v.z, w: Fx { raw: FRAC } });
        Vec3 { x: h.x, y: h.y, z: h.z }
    }

    pub fn dir(&self, v: Vec3) -> (r: Vec3)
        requires
            self.wf(),
            v.wf(),
        ensures
            r == self.s_dir(v),
            r.wf(),
    {
        let h = self.mul_vec(Vec4 { x: v.x, y: v.y, z: v.z, w: Fx { raw: 0 } });
        Vec3 { x: h.x, y: h.y, z: h.z }
    }
}

} // verus!
