use vstd::prelude::*;

use crate::fixed::Fx;
use crate::mat4::Mat4;
use crate::material::Material;
use crate::vec3::Vec3;

verus! {

/// A half-line: an origin and a direction (not required to be unit length).
#[derive(Clone, Copy, Debug, PartialEq, Eq, Structural)]
pub struct Ray {
    pub pos: Vec3,
    pub dir: Vec3,
}

impl Ray {
    pub open spec fn wf(self) -> bool {
        self.pos.wf() && self.dir.wf()
    }

    pub fn new(pos: Vec3, dir: Vec3) -> (r: Ray)
        requires
            pos.wf(),
            dir.wf(),
        ensures
            r == (Ray { pos, dir }),
            r.wf(),
    {
        Ray { pos, dir }
    }

    /// The point at parameter `t` along the ray.
    pub open spec fn s_at(self, t: Fx) -> Vec3 {
        self.pos.s_add(self.dir.s_scale(t))
    }

    pub fn at(self, t: Fx) -> (r: Vec3)
        requires
            self.wf(),
            t.wf(),
        ensures
            r == self.s_at(t),
            r.wf(),
    {
        self.pos.add(self.dir.scale(t))
    }
}

/// A resolved surface hit: the ray parameter, the world-space position and
/// unit normal, the accumulated frame of all ancestor transforms, and a copy
/// of the material that was struck.
#[derive(Clone, Copy, Debug, PartialEq, Eq, Structural)]
pub struct Intersection {
    pub t: Fx,
    pub pos: Vec3,
    pub normal: Vec3,
    pub local_frame: Mat4,
    pub material: Material,
}

impl Intersection {
    pub open spec fn wf(self) -> bool {
        &&& self.t.wf()
        &&& self.t.raw >= 0
        &&& self.pos.wf()
        &&& self.normal.wf()
        &&& self.local_frame.wf()
        &&& self.material.wf()
    }
}

} // verus!
