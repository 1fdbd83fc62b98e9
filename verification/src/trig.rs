//! Fixed-point sine and cosine over angles in centidegrees.
//!
//! Headings and spread deviations are angles in hundredths of a degree, and
//! the unit-circle components are reported scaled by [`TRIG_SCALE`]. The
//! curve is the classical rational approximation of the sine on a half
//! turn, `4 d (180 - d) / (40500 - d (180 - d))` for `d` in degrees, which
//! is exact at 0, 90 and 180 degrees; spelled out in centidegrees it is the
//! body of [`sin_cd`], the library's definition of rotation.

use vstd::prelude::*;

verus! {

/// A full unit component: `sin_cd(9000) == TRIG_SCALE`.
pub const TRIG_SCALE: i64 = 10_000;

/// Half a turn, in centidegrees.
pub const HALF_TURN_CD: i64 = 18_000;

/// A quarter turn, in centidegrees.
pub const QUARTER_TURN_CD: i64 = 9_000;

/// Sine on `[0, HALF_TURN_CD]`, scaled by `TRIG_SCALE`.
pub open spec fn sin_half_turn(theta: int) -> int {
    let p = theta * (18_000 - theta);
    40_000 * p / (405_000_000 - p)
}

/// Sine of an angle in centidegrees, for `theta` in
/// `[-HALF_TURN_CD, HALF_TURN_CD]`, scaled by `TRIG_SCALE`.
pub open spec fn sin_cd(theta: int) -> int {
    if theta >= 0 {
        sin_half_turn(theta)
    } else {
        -sin_half_turn(-theta)
    }
}

/// Cosine of an angle in centidegrees, for `theta` in
/// `[-QUARTER_TURN_CD, QUARTER_TURN_CD]`, scaled by `TRIG_SCALE`.
pub open spec fn cos_cd(theta: int) -> int {
    sin_cd(QUARTER_TURN_CD - theta)
}

proof fn lemma_sin_half_turn_bounds(theta: int)
    requires
        0 <= theta <= 18_000,
    ensures
        0 <= sin_half_turn(theta) <= TRIG_SCALE,
        theta == 9_000 ==> sin_half_turn(theta) == TRIG_SCALE,
        theta == 0 ==> sin_half_turn(theta) == 0,
{
    let p = theta * (18_000 - theta);
    assert(0 <= p <= 81_000_000) by (nonlinear_arith)
        requires 0 <= theta <= 18_000, p == theta * (18_000 - theta);
    assert(40_000 * p / (405_000_000 - p) <= 10_000) by (nonlinear_arith)
        requires 0 <= p <= 81_000_000;
    assert(40_000 * p / (405_000_000 - p) >= 0) by (nonlinear_arith)
        requires 0 <= p <= 81_000_000;
    if theta == 9_000 {
        assert(p == 81_000_000) by (nonlinear_arith)
            requires p == theta * (18_000 - theta), theta == 9_000;
        assert(40_000 * p / (405_000_000 - p) == 10_000) by (nonlinear_arith)
            requires p == 81_000_000;
    }
    if theta == 0 {
        assert(p == 0) by (nonlinear_arith)
            requires p == theta * (18_000 - theta), theta == 0;
    }
}

fn sin_half_turn_exec(theta: i64) -> (r: i64)
    requires
        0 <= theta <= 18_000,
    ensures
        r == sin_half_turn(theta as int),
        0 <= r <= TRIG_SCALE,
        theta == 0 ==> r == 0,
        theta == 9_000 ==> r == TRIG_SCALE,
{
    proof {
        lemma_sin_half_turn_bounds(theta as int);
        assert(0 <= theta * (18_000 - theta) <= 81_000_000) by (nonlinear_arith)
            requires 0 <= theta <= 18_000;
    }
    let p: i64 = theta * (18_000 - theta);
    (40_000 * p) / (405_000_000 - p)
}

/// Scaled sine of an angle in centidegrees.
pub fn sin_scaled(theta: i64) -> (r: i64)
    requires
        -HALF_TURN_CD <= theta <= HALF_TURN_CD,
    ensures
        r == sin_cd(theta as int),
        -TRIG_SCALE <= r <= TRIG_SCALE,
        theta == 0 ==> r == 0,
{
    if theta >= 0 {
        sin_half_turn_exec(theta)
    } else {
        -sin_half_turn_exec(-theta)
    }
}

/// Scaled cosine of an angle in centidegrees.
pub fn cos_scaled(theta: i64) -> (r: i64)
    requires
        -QUARTER_TURN_CD <= theta <= QUARTER_TURN_CD,
    ensures
        r == cos_cd(theta as int),
        -TRIG_SCALE <= r <= TRIG_SCALE,
        theta == 0 ==> r == TRIG_SCALE,
{
    proof {
        lemma_sin_half_turn_bounds(QUARTER_TURN_CD as int);
    }
    sin_scaled(QUARTER_TURN_CD - theta)
}

} // verus!
