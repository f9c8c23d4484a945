use vstd::prelude::*;

use crate::fixed::Fx;
use crate::vec3::Vec3;

verus! {

/// A 3x3 matrix of column vectors; only its determinant is ever needed,
/// as the minors of the 4x4 cofactor expansion.
#[derive(Clone, Copy, Debug, PartialEq, Eq, Structural)]
pub struct Mat3 {
    pub x: Vec3,
    pub y: Vec3,
    pub z: Vec3,
}

impl Mat3 {
    pub open spec fn wf(self) -> bool {
        self.x.wf() && self.y.wf() && self.z.wf()
    }

    /// Cofactor expansion along the first row.
    #[verifier::opaque]
    pub open spec fn s_det(self) -> Fx {
        let m0 = self.y.y.s_mul(self.z.z).s_sub(self.z.y.s_mul(self.y.z));
        let m1 = self.x.y.s_mul(self.z.z).s_sub(self.z.y.s_mul(self.x.z));
        let m2 = self.x.y.s_mul(self.y.z).s_sub(self.y.y.s_mul(self.x.z));
        self.x.x.s_mul(m0).s_sub(self.y.x.s_mul(m1)).s_add(self.z.x.s_mul(m2))
    }

    pub fn from_cols(x: Vec3, y: Vec3, z: Vec3) -> (r: Mat3)
        requires
            x.wf(),
            y.wf(),
            z.wf(),
        ensures
            r == (Mat3 { x, y, z }),
            r.wf(),
    {
        Mat3 { x, y, z }
    }

    pub fn determinant(&self) -> (r: Fx)
        requires
            self.wf(),
        ensures
            r == self.s_det(),
            r.wf(),
    {
        proof {
            reveal(Mat3::s_det);
        }
        let m0 = self.y.y.mul(self.z.z).sub(self.z.y.mul(self.y.z));
        let m1 = self.x.y.mul(self.z.z).sub(self.z.y.mul(self.x.z));
        let m2 = self.x.y.mul(self.y.z).sub(self.y.y.mul(self.x.z));
        self.x.x.mul(m0).sub(self.y.x.mul(m1)).add(self.z.x.mul(m2))
    }
}

} // verus!
