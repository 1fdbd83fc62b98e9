//! Hit-point bookkeeping for damageable entities.
//!
//! A `Health` pairs a positive maximum with the current amount. Damage may
//! push the current amount below zero; it is not clamped, and an entity is
//! dead exactly when the amount is at or below zero.

use vstd::prelude::*;

verus! {

/// Scale used by [`Health::ratio`]: a full health bar reports this value.
pub const RATIO_SCALE: i64 = 1000;

/// Upper bound on the maximum hit points a `Health` may be created with,
/// chosen so that `actual * RATIO_SCALE` can never overflow.
pub const HEALTH_LIMIT: i64 = 1_000_000_000;

/// Max/actual hit-point pair.
#[derive(Clone, Copy, Debug, PartialEq, Eq, Structural)]
pub struct Health {
    pub max: i64,
    pub actual: i64,
}

impl Health {
    /// Invariant: the maximum is positive and bounded, and the current
    /// amount never exceeds the maximum (damage only lowers it) nor falls
    /// below `-HEALTH_LIMIT`.
    pub open spec fn wf(self) -> bool {
        0 < self.max <= HEALTH_LIMIT && -HEALTH_LIMIT <= self.actual <= self.max
    }

    /// A fresh health record starts at full.
    pub fn new(max: i64) -> (r: Health)
        requires
            0 < max <= HEALTH_LIMIT,
        ensures
            r.wf(),
            r.max == max,
            r.actual == max,
    {
        Health { max, actual: max }
    }

    /// Whether this entity is dead: true exactly when the current amount
    /// is at or below zero.
    pub fn dead(&self) -> (r: bool)
        ensures
            r == (self.actual <= 0),
    {
        self.actual <= 0
    }

    /// Remaining fraction of health, scaled by [`RATIO_SCALE`]: a full bar
    /// reports `RATIO_SCALE`, a dead entity reports `0`, and a living one
    /// always reports a positive value: the scaled fraction, rounded down
    /// but never below `1`, so that a zero ratio means death exactly.
    pub fn ratio(&self) -> (r: i64)
        requires
            self.wf(),
        ensures
            (r == 0) <==> (self.actual <= 0),
            self.actual > 0 && self.actual * RATIO_SCALE >= self.max
                ==> r == self.actual * RATIO_SCALE / (self.max as int),
            self.actual > 0 && self.actual * RATIO_SCALE < self.max ==> r == 1,
            0 <= r <= RATIO_SCALE,
            self.actual == self.max ==> r == RATIO_SCALE,
    {
        if self.actual <= 0 {
            0
        } else {
            proof {
                lemma_ratio_bounds(self.actual as int, self.max as int);
            }
            let q = (self.actual * RATIO_SCALE) / self.max;
            if q == 0 {
                1
            } else {
                q
            }
        }
    }

    /// The record after `amount` damage: the current amount is lowered and
    /// not clamped at zero (it may go negative), stopping only at the
    /// bookkeeping floor `-HEALTH_LIMIT`.
    pub open spec fn damaged_by(self, amount: int) -> Health {
        Health {
            max: self.max,
            actual: if self.actual - amount >= -HEALTH_LIMIT {
                (self.actual - amount) as i64
            } else {
                (-HEALTH_LIMIT) as i64
            },
        }
    }

    /// Lower the current amount by `amount`; the maximum is unchanged.
    pub fn apply_damage(&mut self, amount: i64)
        requires
            old(self).wf(),
            0 <= amount <= HEALTH_LIMIT,
        ensures
            *final(self) == old(self).damaged_by(amount as int),
            final(self).wf(),
    {
        if self.actual - amount < -HEALTH_LIMIT {
            self.actual = -HEALTH_LIMIT;
        } else {
            self.actual = self.actual - amount;
        }
    }
}

proof fn lemma_ratio_bounds(actual: int, max: int)
    requires
        0 < actual <= max,
        max <= HEALTH_LIMIT,
    ensures
        0 <= actual * RATIO_SCALE / max <= RATIO_SCALE,
        actual == max ==> actual * RATIO_SCALE / max == RATIO_SCALE,
        actual * RATIO_SCALE <= HEALTH_LIMIT * RATIO_SCALE,
        actual * RATIO_SCALE >= max ==> actual * RATIO_SCALE / max >= 1,
        actual * RATIO_SCALE < max ==> actual * RATIO_SCALE / max == 0,
{
    assert(actual * RATIO_SCALE <= max * RATIO_SCALE) by (nonlinear_arith)
        requires 0 < actual <= max;
    if actual * RATIO_SCALE >= max {
        assert(actual * RATIO_SCALE / max >= 1) by (nonlinear_arith)
            requires 0 < max, actual * RATIO_SCALE >= max;
    } else {
        assert(0 <= actual * RATIO_SCALE) by (nonlinear_arith)
            requires 0 < actual;
        assert(actual * RATIO_SCALE / max == 0) by (nonlinear_arith)
            requires 0 < max, 0 <= actual * RATIO_SCALE < max;
    }
    assert(max * RATIO_SCALE <= HEALTH_LIMIT * RATIO_SCALE) by (nonlinear_arith)
        requires 0 < max <= HEALTH_LIMIT;
    assert(actual * RATIO_SCALE / max <= RATIO_SCALE) by (nonlinear_arith)
        requires 0 < max, actual * RATIO_SCALE <= max * RATIO_SCALE;
    assert(actual * RATIO_SCALE / max >= 0) by (nonlinear_arith)
        requires 0 < max, 0 < actual;
    assert(max * RATIO_SCALE / max == RATIO_SCALE) by (nonlinear_arith)
        requires 0 < max;
}

} // verus!
