use vstd::prelude::*;

use crate::fixed::{fx, mul_raw, sat_exec, sqrt_floor, tdiv, tdiv_exec, Fx, FRAC};
use crate::vec3::Vec3;

verus! {

/// A homogeneous coordinate: a point (w = 1) or a direction (w = 0).
#[derive(Clone, Copy, Debug, PartialEq, Eq, Structural)]
pub struct Vec4 {
    pub x: Fx,
    pub y: Fx,
    pub z: Fx,
    pub w: Fx,
}

impl Vec4 {
    pub open spec fn wf(self) -> bool {
        self.x.wf() && self.y.wf() && self.z.wf() && self.w.wf()
    }

    /// Inner product, truncated once after the exact sum of raw products.
    pub open spec fn s_dot(lhs: Vec4, rhs: Vec4) -> Fx {
        fx(
            tdiv(
                lhs.x.raw * rhs.x.raw + lhs.y.raw * rhs.y.raw + lhs.z.raw * rhs.z.raw
                    + lhs.w.raw * rhs.w.raw,
                FRAC as int,
            ),
        )
    }

    pub open spec fn s_len(self) -> Fx {
        fx(
            sqrt_floor(
                (self.x.raw * self.x.raw + self.y.raw * self.y.raw + self.z.raw * self.z.raw
                    + self.w.raw * self.w.raw) as nat,
            ) as int,
        )
    }

    /// Unit-length companion; the zero vector normalizes to itself.
    pub open spec fn s_normalize(self) -> Vec4 {
        let len = self.s_len();
        if len.raw == 0 {
            self
        } else {
            Vec4 {
                x: fx(tdiv(self.x.raw * FRAC, len.raw as int)),
                y: fx(tdiv(self.y.raw * FRAC, len.raw as int)),
                z: fx(tdiv(self.z.raw * FRAC, len.raw as int)),
                w: fx(tdiv(self.w.raw * FRAC, len.raw as int)),
            }
        }
    }

    /// The three coordinates left after dropping the one at `i`.
    pub open spec fn s_truncate(self, i: int) -> Vec3 {
        if i == 0 {
            Vec3 { x: self.y, y: self.z, z: self.w }
        } else if i == 1 {
            Vec3 { x: self.x, y: self.z, z: self.w }
        } else if i == 2 {
            Vec3 { x: self.x, y: self.y, z: self.w }
        } else {
            Vec3 { x: self.x, y: self.y, z: self.z }
        }
    }

    pub fn new(x: Fx, y: Fx, z: Fx, w: Fx) -> (r: Vec4)
        requires
            x.wf(),
            y.wf(),
            z.wf(),
            w.wf(),
        ensures
            r == (Vec4 { x, y, z, w }),
            r.wf(),
    {
        Vec4 { x, y, z, w }
    }

    pub fn zero() -> (r: Vec4)
        ensures
            r.x.raw == 0 && r.y.raw == 0 && r.z.raw == 0 && r.w.raw == 0,
            r.wf(),
    {
        Vec4 { x: Fx { raw: 0 }, y: Fx { raw: 0 }, z: Fx { raw: 0 }, w: Fx { raw: 0 } }
    }

    pub fn from_vec3(v: Vec3, w: Fx) -> (r: Vec4)
        requires
            v.wf(),
            w.wf(),
        ensures
            r == (Vec4 { x: v.x, y: v.y, z: v.z, w }),
            r.wf(),
    {
        Vec4 { x: v.x, y: v.y, z: v.z, w }
    }

    pub fn dot(lhs: Vec4, rhs: Vec4) -> (r: Fx)
        requires
            lhs.wf(),
            rhs.wf(),
        ensures
            r == Vec4::s_dot(lhs, rhs),
            r.wf(),
    {
        let px: i128 = mul_raw(lhs.x.raw, rhs.x.raw);
        let py: i128 = mul_raw(lhs.y.raw, rhs.y.raw);
        let pz: i128 = mul_raw(lhs.z.raw, rhs.z.raw);
        let pw: i128 = mul_raw(lhs.w.raw, rhs.w.raw);
        let q: i128 = tdiv_exec(px + py + pz + pw, FRAC as i128);
        sat_exec(q)
    }

    pub fn length(&self) -> (r: Fx)
        requires
            self.wf(),
        ensures
            r == self.s_len(),
            r.wf(),
            r.raw >= 0,
    {
        let sx: i128 = mul_raw(self.x.raw, self.x.raw);
        let sy: i128 = mul_raw(self.y.raw, self.y.raw);
        let sz: i128 = mul_raw(self.z.raw, self.z.raw);
        let sw: i128 = mul_raw(self.w.raw, self.w.raw);
        let total: u128 = (sx + sy + sz + sw) as u128;
        let root: u128 = crate::fixed::isqrt_exec(total);
        proof {
            crate::fixed::lemma_sqrt_floor_bounds(total as nat);
            assert(root <= 0x4_0000_0000_0000_0000_0000_0000) by (nonlinear_arith)
                requires
                    root * root <= total,
                    total < 0x10_0000_0000_0000_0000_0000_0000_0000,
                    root >= 0,
            ;
        }
        sat_exec(root as i128)
    }

    pub fn normalize(&self) -> (r: Vec4)
        requires
            self.wf(),
        ensures
            r == self.s_normalize(),
            r.wf(),
    {
        let len = self.length();
        if len.raw == 0 {
            *self
        } else {
            Vec4 {
                x: sat_exec(tdiv_exec(mul_raw(self.x.raw, FRAC), len.raw as i128)),
                y: sat_exec(tdiv_exec(mul_raw(self.y.raw, FRAC), len.raw as i128)),
                z: sat_exec(tdiv_exec(mul_raw(self.z.raw, FRAC), len.raw as i128)),
                w: sat_exec(tdiv_exec(mul_raw(self.w.raw, FRAC), len.raw as i128)),
            }
        }
    }

    pub fn truncate(&self, i: usize) -> (r: Vec3)
        requires
            self.wf(),
            i <= 3,
        ensures
            r == self.s_truncate(i as int),
            r.wf(),
    {
        if i == 0 {
            Vec3 { x: self.y, y: self.z, z: self.w }
        } else if i == 1 {
            Vec3 { x: self.x, y: self.z, z: self.w }
        } else if i == 2 {
            Vec3 { x: self.x, y: self.y, z: self.w }
        } else {
            Vec3 { x: self.x, y: self.y, z: self.z }
        }
    }

    pub fn add(self, o: Vec4) -> (r: Vec4)
        requires
            self.wf(),
            o.wf(),
        ensures
            r == (Vec4 {
                x: self.x.s_add(o.x),
                y: self.y.s_add(o.y),
                z: self.z.s_add(o.z),
                w: self.w.s_add(o.w),
            }),
            r.wf(),
    {
        Vec4 { x: self.x.add(o.x), y: self.y.add(o.y), z: self.z.add(o.z), w: self.w.add(o.w) }
    }

    pub fn sub(self, o: Vec4) -> (r: Vec4)
        requires
            self.wf(),
            o.wf(),
        ensures
            r == (Vec4 {
                x: self.x.s_sub(o.x),
                y: self.y.s_sub(o.y),
                z: self.z.s_sub(o.z),
                w: self.w.s_sub(o.w),
            }),
            r.wf(),
    {
        Vec4 { x: self.x.sub(o.x), y: self.y.sub(o.y), z: self.z.sub(o.z), w: self.w.sub(o.w) }
    }

    pub fn scale(self, k: Fx) -> (r: Vec4)
        requires
            self.wf(),
            k.wf(),
        ensures
            r == (Vec4 {
                x: k.s_mul(self.x),
                y: k.s_mul(self.y),
                z: k.s_mul(self.z),
                w: k.s_mul(self.w),
            }),
            r.wf(),
    {
        Vec4 { x: k.mul(self.x), y: k.mul(self.y), z: k.mul(self.z), w: k.mul(self.w) }
    }
}

} // verus!
