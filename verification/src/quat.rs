use vstd::prelude::*;

use crate::fixed::{Fx, FRAC};
use crate::vec3::Vec3;

verus! {

/// A rotation as a quaternion: the vector part is the axis scaled by the
/// sine of half the angle, `w` is the cosine of half the angle.
#[derive(Clone, Copy, Debug, PartialEq, Eq, Structural)]
pub struct Quat {
    pub x: Fx,
    pub y: Fx,
    pub z: Fx,
    pub w: Fx,
}

impl Quat {
    pub open spec fn wf(self) -> bool {
        self.x.wf() && self.y.wf() && self.z.wf() && self.w.wf()
    }

    pub fn new(x: Fx, y: Fx, z: Fx, w: Fx) -> (r: Quat)
        requires
            x.wf(),
            y.wf(),
            z.wf(),
            w.wf(),
        ensures
            r == (Quat { x, y, z, w }),
            r.wf(),
    {
        Quat { x, y, z, w }
    }

    /// The identity rotation.
    pub fn default() -> (r: Quat)
        ensures
            r == (Quat { x: Fx { raw: 0 }, y: Fx { raw: 0 }, z: Fx { raw: 0 }, w: Fx { raw: FRAC } }),
            r.wf(),
    {
        Quat { x: Fx { raw: 0 }, y: Fx { raw: 0 }, z: Fx { raw: 0 }, w: Fx { raw: FRAC } }
    }

    /// Rotation about `axis`. The trigonometry of the half angle is handed
    /// in as scalars, since the library computes no transcendentals itself.
    pub fn from_axis_angle(axis: Vec3, sin_half: Fx, cos_half: Fx) -> (r: Quat)
        requires
            axis.wf(),
            sin_half.wf(),
            cos_half.wf(),
        ensures
            r == (Quat {
                x: axis.s_scale(sin_half).x,
                y: axis.s_scale(sin_half).y,
                z: axis.s_scale(sin_half).z,
                w: cos_half,
            }),
            r.wf(),
    {
        let v = axis.scale(sin_half);
        Quat { x: v.x, y: v.y, z: v.z, w: cos_half }
    }
}

} // verus!
