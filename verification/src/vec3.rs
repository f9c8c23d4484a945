use vstd::prelude::*;

use crate::fixed::{fx, mul_raw, sat_exec, sqrt_floor, tdiv, tdiv_exec, Fx, FRAC};

verus! {

/// A point or direction in three dimensions, one fixed-point scalar per axis.
#[derive(Clone, Copy, Debug, PartialEq, Eq, Structural)]
pub struct Vec3 {
    pub x: Fx,
    pub y: Fx,
    pub z: Fx,
}

impl Vec3 {
    pub open spec fn wf(self) -> bool {
        self.x.wf() && self.y.wf() && self.z.wf()
    }

    pub open spec fn s_add(self, o: Vec3) -> Vec3 {
        Vec3 { x: self.x.s_add(o.x), y: self.y.s_add(o.y), z: self.z.s_add(o.z) }
    }

    pub open spec fn s_sub(self, o: Vec3) -> Vec3 {
        Vec3 { x: self.x.s_sub(o.x), y: self.y.s_sub(o.y), z: self.z.s_sub(o.z) }
    }

    pub open spec fn s_neg(self) -> Vec3 {
        Vec3 { x: self.x.s_neg(), y: self.y.s_neg(), z: self.z.s_neg() }
    }

    pub open spec fn s_scale(self, k: Fx) -> Vec3 {
        Vec3 { x: k.s_mul(self.x), y: k.s_mul(self.y), z: k.s_mul(self.z) }
    }

    /// Inner product, truncated once after the exact sum of raw products.
    pub open spec fn s_dot(self, o: Vec3) -> Fx {
        fx(
            tdiv(
                self.x.raw * o.x.raw + self.y.raw * o.y.raw + self.z.raw * o.z.raw,
                FRAC as int,
            ),
        )
    }

    pub open spec fn s_cross(self, o: Vec3) -> Vec3 {
        Vec3 {
            x: fx(tdiv(self.y.raw * o.z.raw - self.z.raw * o.y.raw, FRAC as int)),
            y: fx(tdiv(self.z.raw * o.x.raw - self.x.raw * o.z.raw, FRAC as int)),
            z: fx(tdiv(self.x.raw * o.y.raw - self.y.raw * o.x.raw, FRAC as int)),
        }
    }

    /// Euclidean length: square root of the exact sum of squared raw values.
    pub open spec fn s_len(self) -> Fx {
        fx(
            sqrt_floor(
                (self.x.raw * self.x.raw + self.y.raw * self.y.raw + self.z.raw * self.z.raw) as nat,
            ) as int,
        )
    }

    /// Unit-length companion; the zero vector normalizes to itself.
    pub open spec fn s_normalize(self) -> Vec3 {
        let len = self.s_len();
        if len.raw == 0 {
            self
        } else {
            Vec3 {
                x: fx(tdiv(self.x.raw * FRAC, len.raw as int)),
                y: fx(tdiv(self.y.raw * FRAC, len.raw as int)),
                z: fx(tdiv(self.z.raw * FRAC, len.raw as int)),
            }
        }
    }

    pub fn new(x: Fx, y: Fx, z: Fx) -> (r: Vec3)
        requires
            x.wf(),
            y.wf(),
            z.wf(),
        ensures
            r == (Vec3 { x, y, z }),
            r.wf(),
    {
        Vec3 { x, y, z }
    }

    pub fn zero() -> (r: Vec3)
        ensures
            r == (Vec3 { x: Fx { raw: 0 }, y: Fx { raw: 0 }, z: Fx { raw: 0 } }),
            r.wf(),
    {
        Vec3 { x: Fx { raw: 0 }, y: Fx { raw: 0 }, z: Fx { raw: 0 } }
    }

    pub fn add(self, o: Vec3) -> (r: Vec3)
        requires
            self.wf(),
            o.wf(),
        ensures
            r == self.s_add(o),
            r.wf(),
    {
        Vec3 { x: self.x.add(o.x), y: self.y.add(o.y), z: self.z.add(o.z) }
    }

    pub fn sub(self, o: Vec3) -> (r: Vec3)
        requires
            self.wf(),
            o.wf(),
        ensures
            r == self.s_sub(o),
            r.wf(),
    {
        Vec3 { x: self.x.sub(o.x), y: self.y.sub(o.y), z: self.z.sub(o.z) }
    }

    pub fn neg(self) -> (r: Vec3)
        requires
            self.wf(),
        ensures
            r == self.s_neg(),
            r.wf(),
    {
        Vec3 { x: self.x.neg(), y: self.y.neg(), z: self.z.neg() }
    }

    pub fn scale(self, k: Fx) -> (r: Vec3)
        requires
            self.wf(),
            k.wf(),
        ensures
            r == self.s_scale(k),
            r.wf(),
    {
        Vec3 { x: k.mul(self.x), y: k.mul(self.y), z: k.mul(self.z) }
    }

    pub fn dot(self, o: Vec3) -> (r: Fx)
        requires
            self.wf(),
            o.wf(),
        ensures
            r == self.s_dot(o),
            r.wf(),
    {
        let px: i128 = mul_raw(self.x.raw, o.x.raw);
        let py: i128 = mul_raw(self.y.raw, o.y.raw);
        let pz: i128 = mul_raw(self.z.raw, o.z.raw);
        let q: i128 = tdiv_exec(px + py + pz, FRAC as i128);
        sat_exec(q)
    }

    pub fn cross(self, o: Vec3) -> (r: Vec3)
        requires
            self.wf(),
            o.wf(),
        ensures
            r == self.s_cross(o),
            r.wf(),
    {
        let cx: i128 = mul_raw(self.y.raw, o.z.raw) - mul_raw(self.z.raw, o.y.raw);
        let cy: i128 = mul_raw(self.z.raw, o.x.raw) - mul_raw(self.x.raw, o.z.raw);
        let cz: i128 = mul_raw(self.x.raw, o.y.raw) - mul_raw(self.y.raw, o.x.raw);
        Vec3 {
            x: sat_exec(tdiv_exec(cx, FRAC as i128)),
            y: sat_exec(tdiv_exec(cy, FRAC as i128)),
            z: sat_exec(tdiv_exec(cz, FRAC as i128)),
        }
    }

    pub fn length(self) -> (r: Fx)
        requires
            self.wf(),
        ensures
            r == self.s_len(),
            r.wf(),
            r.raw >= 0,
    {
        let sx: i128 = mul_raw(self.x.raw, self.x.raw);
        let sy: i128 = mul_raw(self.y.raw, self.y.raw);
        let sz: i128 = mul_raw(self.z.raw, self.z.raw);
        let total: u128 = (sx + sy + sz) as u128;
        let root: u128 = crate::fixed::isqrt_exec(total);
        proof {
            crate::fixed::lemma_sqrt_floor_bounds(total as nat);
            assert(root <= 0x4_0000_0000_0000_0000_0000_0000) by (nonlinear_arith)
                requires
                    root * root <= total,
                    total < 0x10_0000_0000_0000_0000_0000_0000_0000,
                    root >= 0,
            ;
        }
        sat_exec(root as i128)
    }

    pub fn normalize(self) -> (r: Vec3)
        requires
            self.wf(),
        ensures
            r == self.s_normalize(),
            r.wf(),
    {
        let len = self.length();
        if len.raw == 0 {
            self
        } else {
            Vec3 {
                x: sat_exec(tdiv_exec(mul_raw(self.x.raw, FRAC), len.raw as i128)),
                y: sat_exec(tdiv_exec(mul_raw(self.y.raw, FRAC), len.raw as i128)),
                z: sat_exec(tdiv_exec(mul_raw(self.z.raw, FRAC), len.raw as i128)),
            }
        }
    }

    /// Cosine of the angle between two vectors, the Lambert factor of shading.
    pub open spec fn s_cos_angle(self, o: Vec3) -> Fx {
        let d = self.s_dot(o);
        let den = self.s_len().s_mul(o.s_len());
        if den.raw == 0 {
            Fx { raw: 0 }
        } else {
            d.s_div(den)
        }
    }

    pub fn cos_angle(self, o: Vec3) -> (r: Fx)
        requires
            self.wf(),
            o.wf(),
        ensures
            r == self.s_cos_angle(o),
            r.wf(),
    {
        let d = self.dot(o);
        let den = self.length().mul(o.length());
        if den.raw == 0 {
            Fx { raw: 0 }
        } else {
            d.div(den)
        }
    }
}

} // verus!
