use vstd::prelude::*;

verus! {

/// Number of fractional steps per unit: scalars are counted in 1/65536ths.
pub const FRAC: i64 = 65536;

/// Largest raw magnitude a scalar may carry; results outside are clamped.
pub const LIM: i64 = 0x7fff_ffff_ffff;

/// A signed fixed-point scalar: `raw` counts 1/65536ths of a unit.
/// All arithmetic saturates at `LIM`, so a well-formed scalar stays
/// well-formed through every operation.
#[derive(Clone, Copy, Debug, PartialEq, Eq, Structural)]
pub struct Fx {
    pub raw: i64,
}

/// Clamp a mathematical integer into the raw range of a scalar.
pub open spec fn sat(v: int) -> int {
    if v > LIM {
        LIM as int
    } else if v < -(LIM as int) {
        -(LIM as int)
    } else {
        v
    }
}

/// Absolute value of a mathematical integer.
pub open spec fn iabs(v: int) -> int {
    if v < 0 {
        -v
    } else {
        v
    }
}

/// Division truncated toward zero, as the raw scalar operations use it.
/// Division by zero is never exercised: every caller tests the divisor.
pub open spec fn tdiv(a: int, b: int) -> int {
    if b == 0 {
        0
    } else if (a < 0) == (b < 0) {
        iabs(a) / iabs(b)
    } else {
        -(iabs(a) / iabs(b))
    }
}

/// The scalar holding the clamped value `v` (in raw 1/65536ths).
pub open spec fn fx(v: int) -> Fx {
    Fx { raw: sat(v) as i64 }
}

/// Floor of the square root of a natural number.
pub open spec fn sqrt_floor(x: nat) -> nat
    decreases x,
{
    if x == 0 {
        0
    } else {
        let r = sqrt_floor((x - 1) as nat);
        if (r + 1) * (r + 1) <= x {
            r + 1
        } else {
            r
        }
    }
}

pub proof fn lemma_sqrt_floor_bounds(x: nat)
    ensures
        sqrt_floor(x) * sqrt_floor(x) <= x,
        x < (sqrt_floor(x) + 1) * (sqrt_floor(x) + 1),
    decreases x,
{
    if x > 0 {
        lemma_sqrt_floor_bounds((x - 1) as nat);
        let r = sqrt_floor((x - 1) as nat);
        assert(r * r <= x - 1 && x - 1 < (r + 1) * (r + 1));
        if (r + 1) * (r + 1) <= x {
            assert(sqrt_floor(x) == r + 1);
            assert(x == (r + 1) * (r + 1));
            assert((r + 1) * (r + 1) < (r + 2) * (r + 2)) by (nonlinear_arith);
        } else {
            assert(sqrt_floor(x) == r);
        }
        assert(sqrt_floor(x) * sqrt_floor(x) <= x);
        assert(x < (sqrt_floor(x) + 1) * (sqrt_floor(x) + 1));
    } else {
        assert(sqrt_floor(x) == 0);
        assert(x < (sqrt_floor(x) + 1) * (sqrt_floor(x) + 1)) by (nonlinear_arith)
            requires
                x == 0,
                sqrt_floor(x) == 0,
        ;
    }
}

pub proof fn lemma_sqrt_floor_unique(x: nat, r: nat)
    requires
        r * r <= x,
        x < (r + 1) * (r + 1),
    ensures
        r == sqrt_floor(x),
{
    lemma_sqrt_floor_bounds(x);
    let s = sqrt_floor(x);
    if r < s {
        assert((r + 1) * (r + 1) <= s * s) by (nonlinear_arith)
            requires
                r + 1 <= s,
        ;
    }
    if s < r {
        assert((s + 1) * (s + 1) <= r * r) by (nonlinear_arith)
            requires
                s + 1 <= r,
        ;
    }
}

impl Fx {
    /// Well-formed: the raw value lies within the saturation range.
    pub open spec fn wf(self) -> bool {
        -LIM <= self.raw <= LIM
    }

    pub open spec fn s_add(self, o: Fx) -> Fx {
        fx(self.raw + o.raw)
    }

    pub open spec fn s_sub(self, o: Fx) -> Fx {
        fx(self.raw - o.raw)
    }

    pub open spec fn s_neg(self) -> Fx {
        fx(-self.raw)
    }

    pub open spec fn s_mul(self, o: Fx) -> Fx {
        fx(tdiv(self.raw * o.raw, FRAC as int))
    }

    pub open spec fn s_div(self, o: Fx) -> Fx {
        fx(tdiv(self.raw * FRAC, o.raw as int))
    }

    pub open spec fn s_abs(self) -> Fx {
        fx(iabs(self.raw as int))
    }

    pub open spec fn s_min(self, o: Fx) -> Fx {
        if self.raw <= o.raw {
            self
        } else {
            o
        }
    }

    pub open spec fn s_max(self, o: Fx) -> Fx {
        if self.raw >= o.raw {
            self
        } else {
            o
        }
    }

    /// Square root of a non-negative scalar, rounded down in raw steps.
    pub open spec fn s_sqrt(self) -> Fx {
        fx(sqrt_floor((self.raw * FRAC) as nat) as int)
    }

    /// Nearest whole number, halves rounded away from zero.
    pub open spec fn s_round(self) -> int {
        tdiv(
            if self.raw < 0 {
                self.raw - FRAC / 2
            } else {
                self.raw + FRAC / 2
            },
            FRAC as int,
        )
    }

    pub open spec fn s_clamp01(self) -> Fx {
        if self.raw < 0 {
            Fx { raw: 0 }
        } else if self.raw > FRAC {
            Fx { raw: FRAC }
        } else {
            self
        }
    }

    pub fn zero() -> (r: Fx)
        ensures
            r.raw == 0,
            r.wf(),
    {
        Fx { raw: 0 }
    }

    pub fn one() -> (r: Fx)
        ensures
            r.raw == FRAC,
            r.wf(),
    {
        Fx { raw: FRAC }
    }

    /// Scalar from a raw count of 1/65536ths.
    pub fn from_raw(raw: i64) -> (r: Fx)
        requires
            -LIM <= raw <= LIM,
        ensures
            r.raw == raw,
            r.wf(),
    {
        Fx { raw }
    }

    /// Scalar holding the whole number `v`.
    pub fn from_int(v: i32) -> (r: Fx)
        ensures
            r == fx(v * FRAC),
            r.wf(),
    {
        let raw: i64 = (v as i64) * FRAC;
        if raw > LIM {
            Fx { raw: LIM }
        } else if raw < -LIM {
            Fx { raw: -LIM }
        } else {
            Fx { raw }
        }
    }

    pub fn add(self, o: Fx) -> (r: Fx)
        requires
            self.wf(),
            o.wf(),
        ensures
            r == self.s_add(o),
            r.wf(),
    {
        let v: i64 = self.raw + o.raw;
        if v > LIM {
            Fx { raw: LIM }
        } else if v < -LIM {
            Fx { raw: -LIM }
        } else {
            Fx { raw: v }
        }
    }

    pub fn sub(self, o: Fx) -> (r: Fx)
        requires
            self.wf(),
            o.wf(),
        ensures
            r == self.s_sub(o),
            r.wf(),
    {
        let v: i64 = self.raw - o.raw;
        if v > LIM {
            Fx { raw: LIM }
        } else if v < -LIM {
            Fx { raw: -LIM }
        } else {
            Fx { raw: v }
        }
    }

    pub fn neg(self) -> (r: Fx)
        requires
            self.wf(),
        ensures
            r == self.s_neg(),
            r.wf(),
    {
        Fx { raw: -self.raw }
    }

    pub fn mul(self, o: Fx) -> (r: Fx)
        requires
            self.wf(),
            o.wf(),
        ensures
            r == self.s_mul(o),
            r.wf(),
    {
        let p: i128 = mul_raw(self.raw, o.raw);
        let q: i128 = tdiv_exec(p, FRAC as i128);
        sat_exec(q)
    }

    pub fn div(self, o: Fx) -> (r: Fx)
        requires
            self.wf(),
            o.wf(),
            o.raw != 0,
        ensures
            r == self.s_div(o),
            r.wf(),
    {
        let p: i128 = mul_raw(self.raw, FRAC);
        let q: i128 = tdiv_exec(p, o.raw as i128);
        sat_exec(q)
    }

    pub fn abs(self) -> (r: Fx)
        requires
            self.wf(),
        ensures
            r == self.s_abs(),
            r.wf(),
    {
        if self.raw < 0 {
            Fx { raw: -self.raw }
        } else {
            self
        }
    }

    pub fn min(self, o: Fx) -> (r: Fx)
        requires
            self.wf(),
            o.wf(),
        ensures
            r == self.s_min(o),
            r.wf(),
    {
        if self.raw <= o.raw {
            self
        } else {
            o
        }
    }

    pub fn max(self, o: Fx) -> (r: Fx)
        requires
            self.wf(),
            o.wf(),
        ensures
            r == self.s_max(o),
            r.wf(),
    {
        if self.raw >= o.raw {
            self
        } else {
            o
        }
    }

    pub fn sqrt(self) -> (r: Fx)
        requires
            self.wf(),
            self.raw >= 0,
        ensures
            r == self.s_sqrt(),
            r.wf(),
            r.raw >= 0,
    {
        let x: u128 = (self.raw as u128) * (FRAC as u128);
        let root: u128 = isqrt_exec(x);
        proof {
            lemma_sqrt_floor_bounds(x as nat);
            lemma_sqrt_floor_unique(x as nat, root as nat);
            assert(x <= 0x7fff_ffff_ffff * 65536) by (nonlinear_arith)
                requires
                    x == self.raw * 65536,
                    self.raw <= 0x7fff_ffff_ffff,
            ;
            assert(root <= 0x7fff_ffff_ffff) by (nonlinear_arith)
                requires
                    root * root <= 0x7fff_ffff_ffff * 65536,
                    root >= 0,
            ;
        }
        Fx { raw: root as i64 }
    }

    pub fn round(self) -> (r: i64)
        requires
            self.wf(),
        ensures
            r == self.s_round(),
            -0x8000_8000_0000 <= r <= 0x8000_8000_0000,
    {
        let biased: i64 = if self.raw < 0 {
            self.raw - FRAC / 2
        } else {
            self.raw + FRAC / 2
        };
        let q: i128 = tdiv_exec(biased as i128, FRAC as i128);
        q as i64
    }

    pub fn clamp01(self) -> (r: Fx)
        requires
            self.wf(),
        ensures
            r == self.s_clamp01(),
            r.wf(),
    {
        if self.raw < 0 {
            Fx { raw: 0 }
        } else if self.raw > FRAC {
            Fx { raw: FRAC }
        } else {
            self
        }
    }



}


/// Product of two raw scalar values, widened so it cannot overflow.
pub fn mul_raw(a: i64, b: i64) -> (r: i128)
    requires
        -LIM <= a <= LIM,
        -LIM <= b <= LIM,
    ensures
        r == a * b,
        -0x1_0000_0000_0000_0000_0000_0000 < r < 0x1_0000_0000_0000_0000_0000_0000,
        a == b ==> r >= 0,
{
    proof {
        assert((a as int) * (b as int) < 0x1_0000_0000_0000_0000_0000_0000
            && -0x1_0000_0000_0000_0000_0000_0000 < (a as int) * (b as int)
            && (a == b ==> (a as int) * (b as int) >= 0)) by (nonlinear_arith)
            requires
                -0x7fff_ffff_ffff <= a <= 0x7fff_ffff_ffff,
                -0x7fff_ffff_ffff <= b <= 0x7fff_ffff_ffff,
        ;
    }
    (a as i128) * (b as i128)
}

/// Truncating division on wide intermediates, computed on magnitudes so
/// that the rounding direction is stated exactly.
pub fn tdiv_exec(a: i128, b: i128) -> (r: i128)
    requires
        b != 0,
        -0x4000_0000_0000_0000_0000_0000_0000_0000 < a < 0x4000_0000_0000_0000_0000_0000_0000_0000,
        -0x4000_0000_0000_0000_0000_0000_0000_0000 < b < 0x4000_0000_0000_0000_0000_0000_0000_0000,
    ensures
        r == tdiv(a as int, b as int),
        iabs(r as int) <= iabs(a as int),
{
    let ma: u128 = if a < 0 {
        (-a) as u128
    } else {
        a as u128
    };
    let mb: u128 = if b < 0 {
        (-b) as u128
    } else {
        b as u128
    };
    let q: u128 = ma / mb;
    proof {
        assert(q <= ma) by (nonlinear_arith)
            requires
                mb >= 1,
                q == ma / mb,
        ;
    }
    if (a < 0) == (b < 0) {
        q as i128
    } else {
        -(q as i128)
    }
}

/// Clamp a wide intermediate into the raw scalar range.
pub fn sat_exec(v: i128) -> (r: Fx)
    ensures
        r == fx(v as int),
        r.wf(),
{
    if v > LIM as i128 {
        Fx { raw: LIM }
    } else if v < -(LIM as i128) {
        Fx { raw: -LIM }
    } else {
        Fx { raw: v as i64 }
    }
}

/// Floor of the square root, by binary search on the answer.
pub fn isqrt_exec(x: u128) -> (r: u128)
    ensures
        r as nat == sqrt_floor(x as nat),
        r * r <= x,
{
    let mut lo: u128 = 0;
    let mut hi: u128 = 0x1_0000_0000_0000_0000;
    if x < hi {
        hi = x + 1;
    }
    proof {
        assert(x < hi * hi) by (nonlinear_arith)
            requires
                hi == if x < 0x1_0000_0000_0000_0000 { x + 1 } else { 0x1_0000_0000_0000_0000 as int },
                x <= u128::MAX,
        ;
    }
    while lo + 1 < hi
        invariant
            lo < hi,
            lo * lo <= x,
            x < hi * hi,
            hi <= 0x1_0000_0000_0000_0000,
        decreases hi - lo,
    {
        let mid: u128 = lo + (hi - lo) / 2;
        proof {
            assert(mid * mid <= u128::MAX) by (nonlinear_arith)
                requires
                    0 <= mid < 0x1_0000_0000_0000_0000,
            ;
        }
        if mid * mid <= x {
            lo = mid;
        } else {
            hi = mid;
        }
    }
    proof {
        lemma_sqrt_floor_unique(x as nat, lo as nat);
    }
    lo
}


/// Dividing an exact multiple gives back the factor.
pub proof fn lemma_tdiv_mul_exact(a: int, b: int)
    requires
        b > 0,
    ensures
        tdiv(a * b, b) == a,
{
    if a >= 0 {
        vstd::arithmetic::div_mod::lemma_div_multiples_vanish(a, b);
        assert(a * b >= 0 && iabs(a * b) == a * b) by (nonlinear_arith)
            requires
                a >= 0,
                b > 0,
        ;
        assert(b * a == a * b) by (nonlinear_arith);
    } else {
        vstd::arithmetic::div_mod::lemma_div_multiples_vanish(-a, b);
        assert(a * b < 0 && iabs(a * b) == (-a) * b) by (nonlinear_arith)
            requires
                a < 0,
                b > 0,
        ;
        assert(b * (-a) == (-a) * b) by (nonlinear_arith);
    }
}

/// When the divisor divides evenly, truncating division is exact.
pub proof fn lemma_tdiv_exact(a: int, b: int)
    requires
        b != 0,
        a % b == 0,
    ensures
        tdiv(a, b) * b == a,
{
    vstd::arithmetic::div_mod::lemma_fundamental_div_mod(a, b);
    let k = a / b;
    assert(a == b * k);
    if b > 0 {
        lemma_tdiv_mul_exact(k, b);
        assert(k * b == b * k) by (nonlinear_arith);
        assert(tdiv(a, b) == k);
    } else {
        let bp = -b;
        lemma_tdiv_mul_exact(-k, bp);
        assert((-k) * bp == b * k) by (nonlinear_arith)
            requires
                bp == -b,
        ;
        assert(tdiv(a, bp) == -k);
        assert(tdiv(a, b) == -tdiv(a, bp));
        assert(tdiv(a, b) == k);
    }
    assert(tdiv(a, b) * b == a) by (nonlinear_arith)
        requires
            tdiv(a, b) == a / b,
            a == b * (a / b),
    ;
}


/// Multiplying or dividing by the unit scalar is exact.
pub proof fn lemma_fx_unit(x: Fx)
    requires
        x.wf(),
    ensures
        (Fx { raw: FRAC }).s_mul(x) == x,
        x.s_mul(Fx { raw: FRAC }) == x,
        x.s_div(Fx { raw: FRAC }) == x,
{
    lemma_tdiv_mul_exact(x.raw as int, FRAC as int);
    assert(FRAC * x.raw == x.raw * FRAC) by (nonlinear_arith);
}

/// Dividing after one more full step gives one more.
pub proof fn lemma_div_step(n: int)
    requires
        n >= 0,
    ensures
        (n + FRAC) / (FRAC as int) == n / (FRAC as int) + 1,
{
    vstd::arithmetic::div_mod::lemma_fundamental_div_mod(n, FRAC as int);
    let q = n / (FRAC as int);
    let b = n % (FRAC as int);
    vstd::arithmetic::div_mod::lemma_div_multiples_vanish_fancy(q + 1, b, FRAC as int);
    assert(FRAC * (q + 1) + b == n + FRAC);
}

/// Stepping a scalar by exactly one unit moves its rounding by one.
/// The one excluded point is minus one half exactly, where rounding
/// away from zero jumps by two across the origin.
pub proof fn lemma_round_step(x: Fx)
    requires
        x.wf(),
        x.raw + FRAC <= LIM,
        x.raw != -(FRAC / 2),
    ensures
        (Fx { raw: (x.raw + FRAC) as i64 }).s_round() == x.s_round() + 1,
{
    let a = x.raw as int;
    let f = FRAC as int;
    let h = 32768int;
    if a >= 0 {
        lemma_div_step(a + h);
    } else if a > -h {
        assert(x.s_round() == -((h - a) / f));
        vstd::arithmetic::div_mod::lemma_basic_div_specific_divisor(f);
        assert((h - a) / f == 0);
        assert((Fx { raw: (x.raw + FRAC) as i64 }).s_round() == (a + f + h) / f);
        vstd::arithmetic::div_mod::lemma_div_multiples_vanish_fancy(1, a + h, f);
        assert(f * 1 + (a + h) == a + f + h);
    } else if a >= -f {
        assert(a < -h);
        assert(x.s_round() == -((h - a) / f));
        vstd::arithmetic::div_mod::lemma_div_multiples_vanish_fancy(1, -a - h, f);
        assert(f * 1 + (-a - h) == h - a);
        assert((h - a) / f == 1);
        assert((Fx { raw: (x.raw + FRAC) as i64 }).s_round() == (a + f + h) / f);
        vstd::arithmetic::div_mod::lemma_basic_div_specific_divisor(f);
        assert((a + f + h) / f == 0);
    } else {
        assert(x.s_round() == -((h - a) / f));
        assert(a + f < 0);
        assert((Fx { raw: (x.raw + FRAC) as i64 }).s_round() == -((h - a - f) / f));
        lemma_div_step(h - a - f);
    }
}


/// Multiplying by the zero scalar gives zero, whatever the other factor.
pub proof fn lemma_fx_zero(x: Fx)
    ensures
        x.s_mul(Fx { raw: 0 }) == (Fx { raw: 0 }),
        (Fx { raw: 0 }).s_mul(x) == (Fx { raw: 0 }),
{
    assert(x.raw * 0 == 0) by (nonlinear_arith);
    assert(0 * x.raw == 0) by (nonlinear_arith);
}

} // verus!
