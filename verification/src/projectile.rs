//! Projectiles: ephemeral entities spawned by a fire event, travelling at a
//! fixed speed along the heading given to them at spawn time.

use vstd::prelude::*;

use crate::geom::Vec2;
use crate::motion::displacement;
use crate::motion::heading_step;
use crate::motion::valid_dt;
use crate::motion::Velocity;
use crate::motion::SPEED_LIMIT;
use crate::trig::cos_cd;
use crate::trig::sin_cd;
use crate::trig::QUARTER_TURN_CD;

verus! {

/// A shot in flight: spawn pose plus constant velocity. The heading is
/// centidegrees away from straight up, fixed at spawn (shots do not turn).
#[derive(Clone, Copy, Debug, PartialEq, Eq, Structural)]
pub struct Projectile {
    pub pos: Vec2,
    pub velocity: Velocity,
    pub heading_cd: i64,
}

impl Projectile {
    pub open spec fn wf(self) -> bool {
        self.velocity.wf() && -QUARTER_TURN_CD <= self.heading_cd <= QUARTER_TURN_CD
    }

    pub fn new(pos: Vec2, speed: i64, heading_cd: i64) -> (r: Projectile)
        requires
            0 <= speed <= SPEED_LIMIT,
            -QUARTER_TURN_CD <= heading_cd <= QUARTER_TURN_CD,
        ensures
            r.wf(),
            r.pos == pos,
            r.velocity.speed.0 == speed,
            r.heading_cd == heading_cd,
    {
        Projectile { pos, velocity: Velocity::new(speed), heading_cd }
    }

    /// Where this projectile stands after `dt` time units of flight.
    pub open spec fn advanced(self, dt: int) -> Projectile {
        let travel = displacement(self.velocity.speed.0 as int, dt);
        Projectile {
            pos: Vec2 {
                x: (self.pos.x + heading_step(travel, -sin_cd(self.heading_cd as int))) as i64,
                y: (self.pos.y + heading_step(travel, cos_cd(self.heading_cd as int))) as i64,
            },
            ..self
        }
    }

    /// Advance along the spawn heading by `speed * dt`, unbounded.
    pub fn advance(&mut self, dt: i64)
        requires
            old(self).wf(),
            valid_dt(dt as int),
            old(self).pos.in_coord_range(),
        ensures
            *final(self) == old(self).advanced(dt as int),
            final(self).wf(),
    {
        let v = self.velocity;
        v.advance(&mut self.pos, self.heading_cd, dt);
    }
}

} // verus!
