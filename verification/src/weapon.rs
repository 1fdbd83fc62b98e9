//! The weapon firing/reload state machine.
//!
//! A weapon cycles between a firing phase, in which a countdown timer paces
//! shots at the fire interval and each shot drains the magazine by one, and
//! a reloading phase entered exactly when the magazine is empty, which
//! refills it after the full reload duration has counted down. The timer
//! ticks every simulation tick whether or not the trigger is held, so a
//! reload completes even while the trigger is released.

use vstd::prelude::*;

use crate::geom::Vec2;
use crate::motion::valid_dt;
use crate::motion::SPEED_LIMIT;
use crate::projectile::Projectile;
use crate::rng::rng_range;
use crate::trig::HALF_TURN_CD;

verus! {

/// Largest admissible flat damage of a single shot.
pub const DAMAGE_LIMIT: i64 = 1_000_000;

/// Largest admissible explosive damage radius, in units.
pub const RADIUS_LIMIT: i64 = 1_000_000_000;

/// Largest admissible timer duration, in time units.
pub const TIMER_LIMIT: i64 = 1_000_000_000;

/// Largest admissible magazine capacity.
pub const MAG_LIMIT: usize = 1_000_000;

/// Largest admissible number of projectiles per trigger pull.
pub const PROJECTILES_LIMIT: usize = 10_000;

/// One-shot countdown timer: `remaining` counts down from `duration` to
/// zero and stays there until reset.
#[derive(Clone, Copy, Debug, PartialEq, Eq, Structural)]
pub struct GunTimer {
    pub remaining: i64,
    pub duration: i64,
}

impl GunTimer {
    pub open spec fn wf(self) -> bool {
        0 < self.duration <= TIMER_LIMIT && 0 <= self.remaining <= self.duration
    }

    /// The countdown has run out.
    pub open spec fn spec_finished(self) -> bool {
        self.remaining == 0
    }

    /// The timer after `dt` time units have passed.
    pub open spec fn ticked(self, dt: int) -> GunTimer {
        GunTimer {
            remaining: if self.remaining - dt > 0 {
                (self.remaining - dt) as i64
            } else {
                0
            },
            duration: self.duration,
        }
    }

    /// A fresh timer with the countdown at its full duration.
    pub open spec fn fresh(duration: i64) -> GunTimer {
        GunTimer { remaining: duration, duration }
    }

    pub fn new(duration: i64) -> (r: GunTimer)
        requires
            0 < duration <= TIMER_LIMIT,
        ensures
            r == GunTimer::fresh(duration),
            r.wf(),
    {
        GunTimer { remaining: duration, duration }
    }

    /// Count down by `dt`, stopping at zero.
    pub fn tick(&mut self, dt: i64)
        requires
            old(self).wf(),
            valid_dt(dt as int),
        ensures
            *final(self) == old(self).ticked(dt as int),
            final(self).wf(),
    {
        if self.remaining - dt > 0 {
            self.remaining = self.remaining - dt;
        } else {
            self.remaining = 0;
        }
    }

    pub fn finished(&self) -> (r: bool)
        ensures
            r == self.spec_finished(),
    {
        self.remaining == 0
    }

    /// Wind the countdown back to the full duration.
    pub fn reset(&mut self)
        requires
            old(self).wf(),
        ensures
            *final(self) == GunTimer::fresh(old(self).duration),
            final(self).wf(),
    {
        self.remaining = self.duration;
    }
}

impl Default for GunTimer {
    /// A 100 time-unit one-shot countdown.
    fn default() -> (r: GunTimer)
        ensures
            r == GunTimer::fresh(100),
            r.wf(),
    {
        GunTimer { remaining: 100, duration: 100 }
    }
}

/// Flat damage dealt to the first target in hit range.
#[derive(Clone, Copy, Debug, PartialEq, Eq, Structural)]
pub struct WeaponShotDamageDirect {
    pub damage: i64,
}

/// How explosive damage falls off with distance from the detonation.
#[derive(Clone, Copy, Debug, PartialEq, Eq, Structural)]
pub enum WeaponShotDamageExplosiveDegradation {
    Linear,
}

/// Area damage around a detonation point, degrading to zero at the edge of
/// the damage radius.
#[derive(Clone, Copy, Debug, PartialEq, Eq, Structural)]
pub struct WeaponShotDamageExplosive {
    pub damage: i64,
    pub damage_radius: i64,
    pub damage_degradation: WeaponShotDamageExplosiveDegradation,
}

/// What a shot does on a hit: flat damage to one target, or area damage
/// around a detonation.
#[derive(Clone, Copy, Debug, PartialEq, Eq, Structural)]
pub enum WeaponShotDamage {
    Direct(WeaponShotDamageDirect),
    Explosive(WeaponShotDamageExplosive),
}

impl Default for WeaponShotDamage {
    /// Direct damage of zero.
    fn default() -> (r: WeaponShotDamage)
        ensures
            r == WeaponShotDamage::Direct(WeaponShotDamageDirect { damage: 0 }),
            r.wf(),
    {
        WeaponShotDamage::Direct(WeaponShotDamageDirect { damage: 0 })
    }
}

impl WeaponShotDamage {
    pub open spec fn wf(self) -> bool {
        match self {
            WeaponShotDamage::Direct(d) => 0 <= d.damage <= DAMAGE_LIMIT,
            WeaponShotDamage::Explosive(e) => {
                0 <= e.damage <= DAMAGE_LIMIT && 0 < e.damage_radius <= RADIUS_LIMIT
            },
        }
    }

    pub fn direct(damage: i64) -> (r: WeaponShotDamage)
        requires
            0 <= damage <= DAMAGE_LIMIT,
        ensures
            r == WeaponShotDamage::Direct(WeaponShotDamageDirect { damage }),
            r.wf(),
    {
        WeaponShotDamage::Direct(WeaponShotDamageDirect { damage })
    }

    pub fn explosive(damage: i64, damage_radius: i64) -> (r: WeaponShotDamage)
        requires
            0 <= damage <= DAMAGE_LIMIT,
            0 < damage_radius <= RADIUS_LIMIT,
        ensures
            r == WeaponShotDamage::Explosive(WeaponShotDamageExplosive {
                damage,
                damage_radius,
                damage_degradation: WeaponShotDamageExplosiveDegradation::Linear,
            }),
            r.wf(),
    {
        WeaponShotDamage::Explosive(WeaponShotDamageExplosive {
            damage,
            damage_radius,
            damage_degradation: WeaponShotDamageExplosiveDegradation::Linear,
        })
    }
}

/// Static per-archetype shot parameters. `fire_interval` is the time
/// between shots while firing (the reciprocal of the fire rate) and
/// `reload_duration` the full reload time, both in time units;
/// `spread_cd` is the total random deviation cone in centidegrees.
#[derive(Clone, Copy, Debug, PartialEq, Eq, Structural)]
pub struct WeaponShotParameters {
    pub fire_interval: i64,
    pub reload_duration: i64,
    pub mag_capacity: usize,
    pub spread_cd: i64,
    pub projectiles: usize,
    pub damage: WeaponShotDamage,
    pub shot_speed: i64,
}

impl WeaponShotParameters {
    pub open spec fn wf(self) -> bool {
        0 < self.fire_interval <= TIMER_LIMIT
        && 0 < self.reload_duration <= TIMER_LIMIT
        && 1 <= self.mag_capacity <= MAG_LIMIT
        && 0 <= self.spread_cd <= HALF_TURN_CD
        && 1 <= self.projectiles <= PROJECTILES_LIMIT
        && self.damage.wf()
        && 0 <= self.shot_speed <= SPEED_LIMIT
    }
}

/// Phase of the weapon cycle: pacing shots, or reloading.
#[derive(Clone, Copy, Debug, PartialEq, Eq, Structural)]
pub enum TimerState {
    InterShot,
    Reload,
}

/// Per-owner weapon state: the countdown timer, the phase it paces, the
/// shots left in the magazine, and the static shot parameters.
#[derive(Clone, Copy, Debug, PartialEq, Eq, Structural)]
pub struct Weapon {
    pub timer: GunTimer,
    pub timer_state: TimerState,
    pub shots_left: usize,
    pub shot_params: WeaponShotParameters,
}

impl Weapon {
    /// Invariant: the timer's duration always matches the phase, and the
    /// magazine never exceeds its capacity.
    pub open spec fn wf(self) -> bool {
        self.timer.wf()
        && self.shot_params.wf()
        && self.shots_left <= self.shot_params.mag_capacity
        && (self.timer_state == TimerState::InterShot
            ==> self.timer.duration == self.shot_params.fire_interval)
        && (self.timer_state == TimerState::Reload
            ==> self.timer.duration == self.shot_params.reload_duration)
    }

    /// A just-created weapon: full magazine, firing phase, timer counting
    /// down the fire interval.
    pub open spec fn is_fresh(self) -> bool {
        self.timer_state == TimerState::InterShot
        && self.shots_left == self.shot_params.mag_capacity
        && self.timer == GunTimer::fresh(self.shot_params.fire_interval)
    }

    /// A trigger pull emits shots now: firing phase, shots in the
    /// magazine, and the inter-shot countdown has run out.
    pub open spec fn fires(self) -> bool {
        self.timer_state == TimerState::InterShot
        && self.shots_left > 0
        && self.timer.spec_finished()
    }

    /// The weapon-state part of the fire/reload transition table: what one
    /// trigger-held evaluation does to the state (the emitted shots are
    /// described by [`Weapon::shoot`]).
    pub open spec fn shoot_transition(self) -> Weapon {
        if self.fires() {
            Weapon {
                timer: GunTimer::fresh(self.timer.duration),
                shots_left: (self.shots_left - 1) as usize,
                ..self
            }
        } else if self.timer_state == TimerState::InterShot && self.shots_left == 0 {
            Weapon {
                timer: GunTimer::fresh(self.shot_params.reload_duration),
                timer_state: TimerState::Reload,
                ..self
            }
        } else if self.timer_state == TimerState::Reload && self.timer.spec_finished() {
            Weapon {
                timer: GunTimer::fresh(self.shot_params.fire_interval),
                timer_state: TimerState::InterShot,
                shots_left: self.shot_params.mag_capacity,
                ..self
            }
        } else {
            self
        }
    }

    /// The weapon after its timer has counted `dt` down.
    pub open spec fn after_tick(self, dt: int) -> Weapon {
        Weapon { timer: self.timer.ticked(dt), ..self }
    }

    /// One full trigger-held simulation step at the state level: tick the
    /// timer, then take the transition.
    pub open spec fn step_spec(self, dt: int) -> Weapon {
        self.after_tick(dt).shoot_transition()
    }

    pub fn new(shot_params: WeaponShotParameters) -> (r: Weapon)
        requires
            shot_params.wf(),
        ensures
            r.wf(),
            r.is_fresh(),
            r.shot_params == shot_params,
    {
        Weapon {
            timer: GunTimer::new(shot_params.fire_interval),
            timer_state: TimerState::InterShot,
            shots_left: shot_params.mag_capacity,
            shot_params,
        }
    }

    /// Advance the weapon timer by `dt`; runs every simulation tick,
    /// trigger held or not.
    pub fn tick(&mut self, dt: i64)
        requires
            old(self).wf(),
            valid_dt(dt as int),
        ensures
            *final(self) == old(self).after_tick(dt as int),
            final(self).wf(),
    {
        self.timer.tick(dt);
    }

    /// One trigger-held evaluation of the transition table. Emits
    /// `projectiles` shots exactly when the weapon [`Weapon::fires`], each
    /// spawned at `spawn_pos` at the parameters' shot speed, with an
    /// independently drawn random heading deviation inside the spread cone.
    pub fn shoot(&mut self, spawn_pos: Vec2, rng: &mut rand::rngs::StdRng) -> (r: Option<
        Vec<Projectile>,
    >)
        requires
            old(self).wf(),
        ensures
            *final(self) == old(self).shoot_transition(),
            final(self).wf(),
            r is Some <==> old(self).fires(),
            (r matches Some(shots) ==> {
                &&& shots@.len() == old(self).shot_params.projectiles
                &&& forall|i: int| 0 <= i < shots@.len() ==> {
                    &&& (#[trigger] shots@[i]).wf()
                    &&& shots@[i].pos == spawn_pos
                    &&& shots@[i].velocity.speed.0 == old(self).shot_params.shot_speed
                    &&& -(old(self).shot_params.spread_cd / 2) <= shots@[i].heading_cd
                        <= old(self).shot_params.spread_cd / 2
                }
            }),
    {
        let fires_now = self.shots_left > 0 && self.timer.finished()
            && self.timer_state == TimerState::InterShot;
        if fires_now {
            let n = self.shot_params.projectiles;
            let speed = self.shot_params.shot_speed;
            let spread_half: i64 = self.shot_params.spread_cd / 2;
            let mut shots: Vec<Projectile> = Vec::new();
            let mut k: usize = 0;
            while k < n
                invariant
                    0 <= k <= n,
                    n <= PROJECTILES_LIMIT,
                    0 <= speed <= SPEED_LIMIT,
                    0 <= spread_half <= 9_000,
                    shots@.len() == k,
                    forall|i: int| 0 <= i < k ==> {
                        &&& (#[trigger] shots@[i]).wf()
                        &&& shots@[i].pos == spawn_pos
                        &&& shots@[i].velocity.speed.0 == speed
                        &&& -spread_half <= shots@[i].heading_cd <= spread_half
                    },
                decreases n - k,
            {
                let dev: i64 = if spread_half > 0 {
                    rng_range(rng, -spread_half, spread_half)
                } else {
                    0
                };
                shots.push(Projectile::new(spawn_pos, speed, dev));
                k = k + 1;
            }
            self.timer.reset();
            self.shots_left = self.shots_left - 1;
            Some(shots)
        } else if self.shots_left == 0 && self.timer_state == TimerState::InterShot {
            self.timer = GunTimer::new(self.shot_params.reload_duration);
            self.timer_state = TimerState::Reload;
            None
        } else if self.timer.finished() && self.timer_state == TimerState::Reload {
            self.timer = GunTimer::new(self.shot_params.fire_interval);
            self.timer_state = TimerState::InterShot;
            self.shots_left = self.shot_params.mag_capacity;
            None
        } else {
            None
        }
    }
}

/// Shotgun archetype: slow, wide cone, ten pellets per pull.
pub open spec fn shotgun_params() -> WeaponShotParameters {
    WeaponShotParameters {
        fire_interval: 1000,
        reload_duration: 1667,
        mag_capacity: 5,
        spread_cd: 3000,
        projectiles: 10,
        damage: WeaponShotDamage::Direct(WeaponShotDamageDirect { damage: 10 }),
        shot_speed: 500,
    }
}

/// Rifle archetype: fast single shots, narrow cone.
pub open spec fn rifle_params() -> WeaponShotParameters {
    WeaponShotParameters {
        fire_interval: 100,
        reload_duration: 1667,
        mag_capacity: 30,
        spread_cd: 500,
        projectiles: 1,
        damage: WeaponShotDamage::Direct(WeaponShotDamageDirect { damage: 15 }),
        shot_speed: 500,
    }
}

/// Machine gun archetype: fastest fire, big magazine, slow reload.
pub open spec fn machine_gun_params() -> WeaponShotParameters {
    WeaponShotParameters {
        fire_interval: 67,
        reload_duration: 5000,
        mag_capacity: 100,
        spread_cd: 700,
        projectiles: 1,
        damage: WeaponShotDamage::Direct(WeaponShotDamageDirect { damage: 15 }),
        shot_speed: 500,
    }
}

/// Autocannon archetype: paced explosive shells.
pub open spec fn autocannon_params() -> WeaponShotParameters {
    WeaponShotParameters {
        fire_interval: 333,
        reload_duration: 5000,
        mag_capacity: 10,
        spread_cd: 500,
        projectiles: 1,
        damage: WeaponShotDamage::Explosive(WeaponShotDamageExplosive {
            damage: 50,
            damage_radius: 100,
            damage_degradation: WeaponShotDamageExplosiveDegradation::Linear,
        }),
        shot_speed: 400,
    }
}

/// Cannon archetype: one heavy explosive shell per magazine.
pub open spec fn cannon_params() -> WeaponShotParameters {
    WeaponShotParameters {
        fire_interval: 1000,
        reload_duration: 2000,
        mag_capacity: 1,
        spread_cd: 500,
        projectiles: 1,
        damage: WeaponShotDamage::Explosive(WeaponShotDamageExplosive {
            damage: 150,
            damage_radius: 150,
            damage_degradation: WeaponShotDamageExplosiveDegradation::Linear,
        }),
        shot_speed: 400,
    }
}

/// Rocket archetype: slow, largest blast.
pub open spec fn rocket_params() -> WeaponShotParameters {
    WeaponShotParameters {
        fire_interval: 1000,
        reload_duration: 3333,
        mag_capacity: 1,
        spread_cd: 500,
        projectiles: 1,
        damage: WeaponShotDamage::Explosive(WeaponShotDamageExplosive {
            damage: 200,
            damage_radius: 200,
            damage_degradation: WeaponShotDamageExplosiveDegradation::Linear,
        }),
        shot_speed: 200,
    }
}

impl Weapon {
    pub fn shotgun() -> (r: Weapon)
        ensures
            r.wf(),
            r.is_fresh(),
            r.shot_params == shotgun_params(),
    {
        Weapon::new(
            WeaponShotParameters {
                fire_interval: 1000,
                reload_duration: 1667,
                mag_capacity: 5,
                spread_cd: 3000,
                projectiles: 10,
                damage: WeaponShotDamage::direct(10),
                shot_speed: 500,
            },
        )
    }

    pub fn rifle() -> (r: Weapon)
        ensures
            r.wf(),
            r.is_fresh(),
            r.shot_params == rifle_params(),
    {
        Weapon::new(
            WeaponShotParameters {
                fire_interval: 100,
                reload_duration: 1667,
                mag_capacity: 30,
                spread_cd: 500,
                projectiles: 1,
                damage: WeaponShotDamage::direct(15),
                shot_speed: 500,
            },
        )
    }

    pub fn machine_gun() -> (r: Weapon)
        ensures
            r.wf(),
            r.is_fresh(),
            r.shot_params == machine_gun_params(),
    {
        Weapon::new(
            WeaponShotParameters {
                fire_interval: 67,
                reload_duration: 5000,
                mag_capacity: 100,
                spread_cd: 700,
                projectiles: 1,
                damage: WeaponShotDamage::direct(15),
                shot_speed: 500,
            },
        )
    }

    pub fn autocannon() -> (r: Weapon)
        ensures
            r.wf(),
            r.is_fresh(),
            r.shot_params == autocannon_params(),
    {
        Weapon::new(
            WeaponShotParameters {
                fire_interval: 333,
                reload_duration: 5000,
                mag_capacity: 10,
                spread_cd: 500,
                projectiles: 1,
                damage: WeaponShotDamage::explosive(50, 100),
                shot_speed: 400,
            },
        )
    }

    pub fn cannon() -> (r: Weapon)
        ensures
            r.wf(),
            r.is_fresh(),
            r.shot_params == cannon_params(),
    {
        Weapon::new(
            WeaponShotParameters {
                fire_interval: 1000,
                reload_duration: 2000,
                mag_capacity: 1,
                spread_cd: 500,
                projectiles: 1,
                damage: WeaponShotDamage::explosive(150, 150),
                shot_speed: 400,
            },
        )
    }

    pub fn rocket() -> (r: Weapon)
        ensures
            r.wf(),
            r.is_fresh(),
            r.shot_params == rocket_params(),
    {
        Weapon::new(
            WeaponShotParameters {
                fire_interval: 1000,
                reload_duration: 3333,
                mag_capacity: 1,
                spread_cd: 500,
                projectiles: 1,
                damage: WeaponShotDamage::explosive(200, 200),
                shot_speed: 200,
            },
        )
    }
}

/// Sum of a sequence of tick deltas.
pub open spec fn seq_sum(dts: Seq<int>) -> int
    decreases dts.len(),
{
    if dts.len() == 0 {
        0
    } else {
        dts[0] + seq_sum(dts.drop_first())
    }
}

/// Every delta in the sequence is a valid tick delta.
pub open spec fn all_valid_dt(dts: Seq<int>) -> bool {
    forall|i: int| 0 <= i < dts.len() ==> valid_dt(#[trigger] dts[i])
}

/// The weapon after one trigger-held step per delta, in order.
pub open spec fn run_spec(w: Weapon, dts: Seq<int>) -> Weapon
    decreases dts.len(),
{
    if dts.len() == 0 {
        w
    } else {
        run_spec(w.step_spec(dts[0]), dts.drop_first())
    }
}

/// How the count of shots fired in the current firing phase changes over
/// one step: up by one on a fire, back to zero when a reload completes
/// (a new phase begins), otherwise unchanged.
pub open spec fn next_phase_fired(w: Weapon, c: nat, dt: int) -> nat {
    let t = w.after_tick(dt);
    if t.fires() {
        c + 1
    } else if t.timer_state == TimerState::Reload && t.timer.spec_finished() {
        0
    } else {
        c
    }
}

/// Shots fired in the current firing phase after running the deltas,
/// starting from a count of `c`.
pub open spec fn phase_fired(w: Weapon, c: nat, dts: Seq<int>) -> nat
    decreases dts.len(),
{
    if dts.len() == 0 {
        c
    } else {
        phase_fired(w.step_spec(dts[0]), next_phase_fired(w, c, dts[0]), dts.drop_first())
    }
}

/// Magazine accounting: while firing, the shots fired this phase and the
/// shots left always add up to the capacity; while reloading, the phase
/// that just ended fired exactly the capacity.
pub open spec fn mag_accounting(w: Weapon, c: nat) -> bool {
    match w.timer_state {
        TimerState::InterShot => c + w.shots_left == w.shot_params.mag_capacity,
        TimerState::Reload => c == w.shot_params.mag_capacity,
    }
}

/// One trigger-held step preserves well-formedness and magazine accounting.
pub proof fn lemma_step_preserves_accounting(w: Weapon, c: nat, dt: int)
    requires
        w.wf(),
        valid_dt(dt),
        mag_accounting(w, c),
    ensures
        w.step_spec(dt).wf(),
        mag_accounting(w.step_spec(dt), next_phase_fired(w, c, dt)),
        w.step_spec(dt).shot_params == w.shot_params,
{
}

/// Magazine accounting holds along any trigger-held run.
pub proof fn lemma_run_preserves_accounting(w: Weapon, c: nat, dts: Seq<int>)
    requires
        w.wf(),
        all_valid_dt(dts),
        mag_accounting(w, c),
    ensures
        run_spec(w, dts).wf(),
        mag_accounting(run_spec(w, dts), phase_fired(w, c, dts)),
        run_spec(w, dts).shot_params == w.shot_params,
    decreases dts.len(),
{
    if dts.len() > 0 {
        lemma_step_preserves_accounting(w, c, dts[0]);
        assert(all_valid_dt(dts.drop_first())) by {
            assert(forall|i: int| 0 <= i < dts.drop_first().len()
                ==> #[trigger] dts.drop_first()[i] == dts[i + 1]);
        }
        lemma_run_preserves_accounting(
            w.step_spec(dts[0]),
            next_phase_fired(w, c, dts[0]),
            dts.drop_first(),
        );
    }
}

/// With the trigger held, a weapon that starts its firing phase with a
/// full magazine of capacity `N` fires exactly `N` times before it enters
/// the reloading phase, whatever the fire interval and tick deltas.
pub proof fn lemma_magazine_drains_exactly(w: Weapon, dts: Seq<int>)
    requires
        w.wf(),
        w.timer_state == TimerState::InterShot,
        w.shots_left == w.shot_params.mag_capacity,
        all_valid_dt(dts),
        run_spec(w, dts).timer_state == TimerState::Reload,
    ensures
        phase_fired(w, 0, dts) == w.shot_params.mag_capacity,
{
    lemma_run_preserves_accounting(w, 0, dts);
}

/// The sum of valid tick deltas is non-negative.
pub proof fn lemma_seq_sum_nonneg(dts: Seq<int>)
    requires
        all_valid_dt(dts),
    ensures
        seq_sum(dts) >= 0,
    decreases dts.len(),
{
    if dts.len() > 0 {
        assert(all_valid_dt(dts.drop_first())) by {
            assert(forall|i: int| 0 <= i < dts.drop_first().len()
                ==> #[trigger] dts.drop_first()[i] == dts[i + 1]);
        }
        lemma_seq_sum_nonneg(dts.drop_first());
    }
}

/// A reloading weapon returns to its firing phase only after simulated
/// time at least equal to the remaining reload countdown has elapsed: a
/// reload always takes its full duration in simulation time.
pub proof fn lemma_reload_takes_full_duration(w: Weapon, dts: Seq<int>)
    requires
        w.wf(),
        w.timer_state == TimerState::Reload,
        all_valid_dt(dts),
        run_spec(w, dts).timer_state == TimerState::InterShot,
    ensures
        seq_sum(dts) >= w.timer.remaining,
    decreases dts.len(),
{
    if dts.len() > 0 {
        let w1 = w.step_spec(dts[0]);
        assert(all_valid_dt(dts.drop_first())) by {
            assert(forall|i: int| 0 <= i < dts.drop_first().len()
                ==> #[trigger] dts.drop_first()[i] == dts[i + 1]);
        }
        if w1.timer_state == TimerState::InterShot {
            lemma_seq_sum_nonneg(dts.drop_first());
        } else {
            lemma_step_preserves_accounting(w, w.shot_params.mag_capacity as nat, dts[0]);
            lemma_reload_takes_full_duration(w1, dts.drop_first());
        }
    }
}

/// A weapon that has just entered the reloading phase resumes firing only
/// after the full reload duration has elapsed in simulation time.
pub proof fn lemma_resume_after_full_reload(w: Weapon, dts: Seq<int>)
    requires
        w.wf(),
        w.timer_state == TimerState::Reload,
        w.timer.remaining == w.shot_params.reload_duration,
        all_valid_dt(dts),
        run_spec(w, dts).timer_state == TimerState::InterShot,
    ensures
        seq_sum(dts) >= w.shot_params.reload_duration,
{
    lemma_reload_takes_full_duration(w, dts);
}

} // verus!
