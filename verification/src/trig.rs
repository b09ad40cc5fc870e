//! Fixed-point trigonometry for turning an aim angle and a launch power
//! into a muzzle velocity. Angles are in milliradians over `[0, PI_MRAD]`,
//! sines and cosines are scaled by 1000, and the sine is the classical
//! rational approximation 16a(pi - a) / (5 pi^2 - 4a(pi - a)), which is
//! exact at 0, pi/2 and pi.

use vstd::prelude::*;
use vstd::arithmetic::div_mod::lemma_div_is_ordered;
use vstd::arithmetic::div_mod::lemma_div_multiples_vanish;

use crate::angle::Angle;
use crate::angle::HALF_PI_MRAD;
use crate::angle::PI_MRAD;

verus! {

/// Largest launch power a player can set, in tenths of a speed unit.
pub const MAX_POWER: u32 = 100;

/// Scaled sine of `a` milliradians, for `a` in `[0, PI_MRAD]`.
pub open spec fn sin_mrad_spec(a: int) -> int {
    let t = a * (PI_MRAD - a);
    (16000 * t) / (5 * PI_MRAD * PI_MRAD - 4 * t)
}

/// Scaled cosine of `a` milliradians, for `a` in `[0, PI_MRAD]`.
pub open spec fn cos_mrad_spec(a: int) -> int {
    if a <= HALF_PI_MRAD {
        sin_mrad_spec(HALF_PI_MRAD - a)
    } else {
        -sin_mrad_spec(a - HALF_PI_MRAD)
    }
}

/// Horizontal muzzle velocity for aim `a` and power `p`: `-cos(a) * p`,
/// descaled, so that angles below a quarter turn shoot leftward exactly as
/// angles above it shoot rightward.
pub open spec fn vel_x_of(a: int, p: int) -> int {
    let c = cos_mrad_spec(a);
    if c >= 0 {
        -((c * p) / 1000)
    } else {
        ((-c) * p) / 1000
    }
}

/// Vertical muzzle velocity for aim `a` and power `p`: `sin(a) * p`, descaled.
pub open spec fn vel_y_of(a: int, p: int) -> int {
    (sin_mrad_spec(a) * p) / 1000
}

/// Scaled sine, exactly as `sin_mrad_spec` states it.
pub fn sin_mrad(a: u32) -> (r: u32)
    requires
        a <= PI_MRAD,
    ensures
        r == sin_mrad_spec(a as int),
        r <= 1000,
{
    proof {
        assert(0 <= a * (PI_MRAD - a) <= 2468041) by (nonlinear_arith)
            requires
                0 <= a <= 3142,
                PI_MRAD == 3142,
        ;
    }
    let t: u64 = (a as u64) * ((PI_MRAD - a) as u64);
    let num: u64 = 16000 * t;
    let den: u64 = 49360820 - 4 * t;
    let r: u64 = num / den;
    proof {
        assert(num <= den * 1000);
        lemma_div_is_ordered(num as int, den as int * 1000, den as int);
        lemma_div_multiples_vanish(1000, den as int);
    }
    r as u32
}

/// Scaled cosine, exactly as `cos_mrad_spec` states it.
pub fn cos_mrad(a: u32) -> (r: i32)
    requires
        a <= PI_MRAD,
    ensures
        r == cos_mrad_spec(a as int),
        -1000 <= r <= 1000,
{
    if a <= HALF_PI_MRAD {
        sin_mrad(HALF_PI_MRAD - a) as i32
    } else {
        -(sin_mrad(a - HALF_PI_MRAD) as i32)
    }
}

/// The muzzle velocity imparted by firing with aim `a` at power `power`.
pub fn muzzle_velocity(a: &Angle, power: u32) -> (v: (i64, i64))
    requires
        a.wf(),
        power <= MAX_POWER,
    ensures
        v.0 == vel_x_of(a.spec_value() as int, power as int),
        v.1 == vel_y_of(a.spec_value() as int, power as int),
        -100 <= v.0 <= 100,
        0 <= v.1 <= 100,
{
    let c = cos_mrad(a.get());
    let s = sin_mrad(a.get());
    let vx: i64 = if c >= 0 {
        proof {
            assert(0 <= c * power <= 100000) by (nonlinear_arith)
                requires
                    0 <= c <= 1000,
                    0 <= power <= 100,
            ;
            lemma_div_is_ordered(c * power, 100000, 1000);
        }
        let m: u64 = (c as u64) * (power as u64) / 1000;
        -(m as i64)
    } else {
        proof {
            assert(0 <= (-c) * power <= 100000) by (nonlinear_arith)
                requires
                    0 <= -c <= 1000,
                    0 <= power <= 100,
            ;
            lemma_div_is_ordered((-c) * power, 100000, 1000);
        }
        let m: u64 = ((-c) as u64) * (power as u64) / 1000;
        m as i64
    };
    proof {
        assert(0 <= s * power <= 100000) by (nonlinear_arith)
            requires
                0 <= s <= 1000,
                0 <= power <= 100,
        ;
        lemma_div_is_ordered(s * power, 100000, 1000);
    }
    let vy_u: u64 = (s as u64) * (power as u64) / 1000;
    (vx, vy_u as i64)
}

} // verus!
