//! Fixed-point shader math: the sample helpers shaders lean on, on 16.16
//! fixed-point samples (65536 is one). Each function computes a stated
//! closed-form approximation — a rational approximation of the sine on a
//! reduced phase, a cubic of the base-two exponential on a split exponent —
//! and its contract pins the result to that formula exactly.

use vstd::prelude::*;

use vstd::arithmetic::div_mod::{
    lemma_basic_div, lemma_div_is_ordered, lemma_div_multiples_vanish,
    lemma_fundamental_div_mod, lemma_fundamental_div_mod_converse, lemma_multiply_divide_le,
    lemma_multiply_divide_lt,
};
use vstd::arithmetic::power2::{
    lemma2_to64, lemma2_to64_rest, lemma_pow2_pos, lemma_pow2_strictly_increases, pow2,
};
use vstd::bits::lemma_u64_shl_is_mul;

verus! {

/// One, at 16 fractional bits.
pub const FX_ONE: i64 = 65536;

/// Half pi, pi and tau in the same scale; tau is exactly four half-pis so
/// the phase reduction and the quarter-turn shift agree with each other.
pub const FX_HALF_PI: i64 = 102944;

pub const FX_PI: i64 = 205888;

pub const FX_TAU: i64 = 411776;

/// The exponential accepts inputs in this range; below it the result is
/// indistinguishable from zero anyway, above it it would not fit the scale.
pub const FX_EXP_MIN_INPUT: i64 = -17592186044416;

pub const FX_EXP_MAX_INPUT: i64 = 2000000;

/// A three-component sample vector, as the shader helpers consume and
/// produce it.
#[derive(Debug, Clone, Copy, PartialEq, Eq, Structural)]
pub struct FxVec3 {
    pub x: i64,
    pub y: i64,
    pub z: i64,
}

/// Clamp into the unit range.
pub open spec fn fx_saturate(x: int) -> int {
    if x < 0 {
        0
    } else if x > 65536 {
        65536
    } else {
        x
    }
}

/// The sine on a phase already reduced to the first half turn, as the
/// rational approximation `16 t (pi - t) / (5 pi^2 - 4 t (pi - t))`, carried
/// out at this scale: `3234090` is `5 pi^2` brought back to it.
pub open spec fn fx_sin_half(t: int) -> int {
    let a = t * (205888 - t) / 65536;
    (16 * a * 65536) / (3234090 - 4 * a)
}

/// The sine of any phase: the phase reduced into one turn, the second half
/// turn taken as the mirrored first.
pub open spec fn fx_sin(x: int) -> int {
    let r = x % 411776;
    if r <= 205888 {
        fx_sin_half(r)
    } else {
        -fx_sin_half(r - 205888)
    }
}

/// The cosine as the sine a quarter turn ahead.
pub open spec fn fx_cos(x: int) -> int {
    fx_sin(x + 102944)
}

/// Two to a fractional power `f` of one, as the cubic
/// `1 + f ln 2 + (f ln 2)^2 / 2 + (f ln 2)^3 / 6`: `45426` is `ln 2` at this
/// scale, `131072` twice one, `25769803776` six times one squared.
pub open spec fn fx_exp_poly(f: int) -> int {
    let t = f * 45426 / 65536;
    65536 + t + t * t / 131072 + t * t * t / 25769803776
}

/// The exponential: the input scaled by `log2 e` (`94548` here) splits into
/// a whole power of two and a fractional one; the fraction goes through the
/// cubic and the whole part shifts it, up or down by the input's sign.
pub open spec fn fx_exp(x: int) -> int {
    if x >= 0 {
        let y = x * 94548 / 65536;
        fx_exp_poly(y % 65536) * (pow2((y / 65536) as nat) as int)
    } else {
        let y = (0 - x) * 94548 / 65536;
        fx_exp_poly(65536 - y % 65536) / (pow2((y / 65536 + 1) as nat) as int)
    }
}

/// The smooth step: the position scaled into the unit range of the two
/// edges and clamped, then eased by the cubic `t^2 (3 - 2 t)`.
pub open spec fn fx_smoothstep(edge0: int, edge1: int, x: int) -> int {
    let t = if x <= edge0 {
        0
    } else if x >= edge1 {
        65536
    } else {
        (x - edge0) * 65536 / (edge1 - edge0)
    };
    t * t * (3 * 65536 - 2 * t) / 4294967296
}

/// Clamp a sample into the unit range.
pub fn saturate(x: i64) -> (r: i64)
    ensures
        r == fx_saturate(x as int),
        0 <= r <= FX_ONE,
{
    if x < 0 {
        0
    } else if x > 65536 {
        65536
    } else {
        x
    }
}

/// The reduced-phase sine core.
fn sin_half(t: u64) -> (r: u64)
    requires
        t <= 205888,
    ensures
        r == fx_sin_half(t as int),
        r <= 65536,
{
    proof {
        assert(t * (205888 - t) <= 102944 * 102944) by (nonlinear_arith)
            requires
                t <= 205888,
        ;
    }
    let a = t * (205888 - t) / 65536;
    proof {
        lemma_div_is_ordered(t as int * (205888 - t as int), 102944int * 102944, 65536);
        assert(a <= 161704);
    }
    let num = 16 * a * 65536;
    let den = 3234090 - 4 * a;
    let r = num / den;
    proof {
        assert(num <= den * 65536);
        lemma_multiply_divide_le(num as int, den as int, 65536);
    }
    r
}

/// The phase brought into one turn, whatever the sign.
fn reduce_phase(x: i64) -> (t: u64)
    requires
        x > i64::MIN,
    ensures
        t == (x as int) % 411776,
        t < 411776,
{
    if x >= 0 {
        (x as u64) % 411776
    } else {
        let z = -x;
        let m = (z as u64) % 411776;
        proof {
            let zi = z as int;
            let xi = x as int;
            lemma_fundamental_div_mod(zi, 411776);
            let q = zi / 411776;
            let mi = zi % 411776;
            if mi == 0 {
                lemma_fundamental_div_mod_converse(xi, 411776, -q, 0);
            } else {
                lemma_fundamental_div_mod_converse(xi, 411776, -q - 1, 411776 - mi);
            }
        }
        if m == 0 {
            0
        } else {
            411776 - m
        }
    }
}

/// The scalar sine.
fn sin_scalar(x: i64) -> (r: i64)
    requires
        x > i64::MIN,
    ensures
        r == fx_sin(x as int),
        -65536 <= r <= 65536,
{
    let t = reduce_phase(x);
    if t <= 205888 {
        sin_half(t) as i64
    } else {
        -(sin_half(t - 205888) as i64)
    }
}

/// Two to the `n`-th power.
fn pow2_u64(n: u64) -> (m: u64)
    requires
        n <= 63,
    ensures
        m == pow2(n as nat),
        m >= 1,
{
    proof {
        lemma2_to64();
        lemma2_to64_rest();
        if n < 63 {
            lemma_pow2_strictly_increases(n as nat, 63);
        }
        lemma_pow2_pos(n as nat);
        lemma_u64_shl_is_mul(1u64, n);
    }
    1u64 << n
}

/// The fractional-power cubic.
fn exp_poly(f: u64) -> (p: u64)
    requires
        f <= 65536,
    ensures
        p == fx_exp_poly(f as int),
        65536 <= p <= 131071,
{
    let t = f * 45426 / 65536;
    proof {
        lemma_div_is_ordered(f as int * 45426, 65536int * 45426, 65536);
        lemma_div_multiples_vanish(45426, 65536);
        assert(t <= 45426);
        assert(t * t <= 45426 * 45426) by (nonlinear_arith)
            requires
                t <= 45426,
        ;
        assert(t * t * t <= 45426 * 45426 * 45426) by (nonlinear_arith)
            requires
                t <= 45426,
        ;
        lemma_div_is_ordered(t as int * t as int, 45426int * 45426, 131072);
        lemma_div_is_ordered(t as int * t as int * t as int, 45426int * 45426 * 45426, 25769803776);
    }
    65536 + t + t * t / 131072 + t * t * t / 25769803776
}

/// The scalar exponential.
fn exp_scalar(x: i64) -> (r: i64)
    requires
        FX_EXP_MIN_INPUT <= x <= FX_EXP_MAX_INPUT,
    ensures
        r == fx_exp(x as int),
        r >= 0,
{
    if x >= 0 {
        let y = (x as u64) * 94548 / 65536;
        proof {
            lemma_div_is_ordered(x as int * 94548, 2000000int * 94548, 65536);
            assert(y <= 2885375);
        }
        let n = y / 65536;
        let f = y % 65536;
        proof {
            assert(n <= 44);
            lemma2_to64();
            lemma2_to64_rest();
            if n < 44 {
                lemma_pow2_strictly_increases(n as nat, 44);
            }
            assert(pow2(44) == 17592186044416);
        }
        let p = exp_poly(f);
        let m = pow2_u64(n);
        proof {
            assert(p * m <= 131071 * 17592186044416) by (nonlinear_arith)
                requires
                    p <= 131071,
                    m <= 17592186044416,
                    p >= 0,
                    m >= 0,
            ;
        }
        (p * m) as i64
    } else {
        let z = (-x) as u64;
        let y = z * 94548 / 65536;
        let n = y / 65536;
        let f = y % 65536;
        let p = exp_poly(65536 - f);
        if n >= 17 {
            proof {
                lemma2_to64();
                lemma_pow2_strictly_increases(17, (n + 1) as nat);
                lemma_pow2_pos((n + 1) as nat);
                lemma_basic_div(p as int, pow2((n + 1) as nat) as int);
            }
            0
        } else {
            let m = pow2_u64(n + 1);
            proof {
                lemma_pow2_pos((n + 1) as nat);
                lemma_div_is_ordered(0, p as int, m as int);
            }
            (p / m) as i64
        }
    }
}

impl FxVec3 {
    /// Build a sample vector.
    pub fn new(x: i64, y: i64, z: i64) -> (v: FxVec3)
        ensures
            v == (FxVec3 { x, y, z }),
    {
        FxVec3 { x, y, z }
    }
}

/// The componentwise sine.
pub fn sin(v: FxVec3) -> (r: FxVec3)
    requires
        v.x > i64::MIN,
        v.y > i64::MIN,
        v.z > i64::MIN,
    ensures
        r.x == fx_sin(v.x as int),
        r.y == fx_sin(v.y as int),
        r.z == fx_sin(v.z as int),
        -FX_ONE <= r.x <= FX_ONE && -FX_ONE <= r.y <= FX_ONE && -FX_ONE <= r.z <= FX_ONE,
{
    FxVec3 { x: sin_scalar(v.x), y: sin_scalar(v.y), z: sin_scalar(v.z) }
}

/// The componentwise cosine: the sine a quarter turn ahead.
pub fn cos(v: FxVec3) -> (r: FxVec3)
    requires
        v.x <= i64::MAX - FX_HALF_PI,
        v.y <= i64::MAX - FX_HALF_PI,
        v.z <= i64::MAX - FX_HALF_PI,
    ensures
        r.x == fx_cos(v.x as int),
        r.y == fx_cos(v.y as int),
        r.z == fx_cos(v.z as int),
        -FX_ONE <= r.x <= FX_ONE && -FX_ONE <= r.y <= FX_ONE && -FX_ONE <= r.z <= FX_ONE,
{
    FxVec3 {
        x: sin_scalar(v.x + FX_HALF_PI),
        y: sin_scalar(v.y + FX_HALF_PI),
        z: sin_scalar(v.z + FX_HALF_PI),
    }
}

/// The componentwise exponential.
pub fn exp(v: FxVec3) -> (r: FxVec3)
    requires
        FX_EXP_MIN_INPUT <= v.x <= FX_EXP_MAX_INPUT,
        FX_EXP_MIN_INPUT <= v.y <= FX_EXP_MAX_INPUT,
        FX_EXP_MIN_INPUT <= v.z <= FX_EXP_MAX_INPUT,
    ensures
        r.x == fx_exp(v.x as int),
        r.y == fx_exp(v.y as int),
        r.z == fx_exp(v.z as int),
        r.x >= 0 && r.y >= 0 && r.z >= 0,
{
    FxVec3 { x: exp_scalar(v.x), y: exp_scalar(v.y), z: exp_scalar(v.z) }
}

/// The smooth step between two edges.
pub fn smoothstep(edge0: i64, edge1: i64, x: i64) -> (r: i64)
    requires
        edge0 < edge1,
        edge1 - edge0 <= 1099511627776,
    ensures
        r == fx_smoothstep(edge0 as int, edge1 as int, x as int),
        0 <= r <= FX_ONE,
{
    let t: u64;
    if x <= edge0 {
        t = 0;
    } else if x >= edge1 {
        t = 65536;
    } else {
        let dx = (x - edge0) as u64;
        let de = (edge1 - edge0) as u64;
        t = dx * 65536 / de;
        proof {
            assert(dx as int * 65536 < de as int * 65536);
            lemma_multiply_divide_lt(dx as int * 65536, de as int, 65536);
        }
    }
    proof {
        assert(t * t <= 65536 * 65536) by (nonlinear_arith)
            requires
                t <= 65536,
        ;
        assert(t * t * (3 * 65536 - 2 * t) <= 65536 * 65536 * 65536) by (nonlinear_arith)
            requires
                t <= 65536,
        ;
    }
    let s = t * t * (3 * 65536 - 2 * t);
    let r = s / 4294967296;
    proof {
        assert(65536 * 65536 * 65536 == 4294967296 * 65536);
        lemma_div_is_ordered(s as int, 4294967296int * 65536, 4294967296);
        lemma_div_multiples_vanish(65536, 4294967296);
    }
    r as i64
}

} // verus!
