//! Damage resolution: mapping one shot's damage variant and position to
//! hit-point deductions on the enemies.
//!
//! Direct damage goes in full to the first enemy in iteration order within
//! the fixed hit radius. Explosive damage detonates when any enemy is
//! within the hit radius and then deals every enemy within the damage
//! radius `damage * (radius - d) / radius`, falling linearly to zero at
//! the radius edge. Every range test compares squared distances, the
//! exact integer form of a Euclidean comparison; only the falloff amount
//! uses the floored distance `d`, which has no exact integer form.
//! Applying damage twice double-applies it: callers despawn a projectile
//! as soon as resolution returns a hit.

use vstd::prelude::*;

use crate::enemy::Enemy;
use crate::enemy::ENEMY_ENTITY_HEIGHT;
use crate::geom::dist_sq;
use crate::geom::distance;
use crate::geom::distance_sq;
use crate::geom::lemma_sqrt_floor_le;
use crate::geom::lemma_sqrt_floor_square;
use crate::geom::sqrt_floor;
use crate::geom::Vec2;
use crate::weapon::Weapon;
use crate::weapon::WeaponShotDamage;
use crate::weapon::WeaponShotDamageExplosive;
use crate::weapon::DAMAGE_LIMIT;

verus! {

/// The fixed proximity threshold for a hit: half the enemy height
/// ([`ENEMY_ENTITY_HEIGHT`] is 30 units).
pub const HIT_RADIUS: i64 = 15;

/// Largest enemy collection damage resolution accepts, so that summed
/// explosive damage stays far from overflow.
pub const MAX_TARGETS: usize = 1_000_000;

/// The shot at `shot` is within hit range of enemy `e`: Euclidean
/// distance at most [`HIT_RADIUS`], tested exactly on squares.
pub open spec fn in_hit_range(shot: Vec2, e: Enemy) -> bool {
    dist_sq(shot, e.pos) <= HIT_RADIUS * HIT_RADIUS
}

/// Index of the first enemy in iteration order within hit range of the
/// shot, or `-1` if there is none.
pub open spec fn first_hit(shot: Vec2, s: Seq<Enemy>) -> int
    decreases s.len(),
{
    if s.len() == 0 {
        -1
    } else if in_hit_range(shot, s[0]) {
        0
    } else {
        let t = first_hit(shot, s.drop_first());
        if t < 0 {
            -1
        } else {
            1 + t
        }
    }
}

/// If no enemy is within hit range, there is no first hit.
pub proof fn lemma_first_hit_none(shot: Vec2, s: Seq<Enemy>)
    requires
        forall|i: int| 0 <= i < s.len() ==> !in_hit_range(shot, #[trigger] s[i]),
    ensures
        first_hit(shot, s) == -1,
    decreases s.len(),
{
    if s.len() > 0 {
        assert(forall|i: int| 0 <= i < s.drop_first().len()
            ==> #[trigger] s.drop_first()[i] == s[i + 1]);
        lemma_first_hit_none(shot, s.drop_first());
    }
}

/// The index of a hit with no hit before it is the first hit.
pub proof fn lemma_first_hit_is(shot: Vec2, s: Seq<Enemy>, j: int)
    requires
        0 <= j < s.len(),
        in_hit_range(shot, s[j]),
        forall|i: int| 0 <= i < j ==> !in_hit_range(shot, #[trigger] s[i]),
    ensures
        first_hit(shot, s) == j,
    decreases s.len(),
{
    if j > 0 {
        assert(forall|i: int| 0 <= i < s.drop_first().len()
            ==> #[trigger] s.drop_first()[i] == s[i + 1]);
        lemma_first_hit_is(shot, s.drop_first(), j - 1);
    }
}

/// The enemy with its health lowered by `amount`.
pub open spec fn enemy_damaged(e: Enemy, amount: int) -> Enemy {
    Enemy { health: e.health.damaged_by(amount), ..e }
}

/// Explosive damage dealt at squared distance `dsq` from the detonation:
/// inside the damage radius (exact squared test) it is
/// `damage * (radius - d) / radius` for the floored distance `d` — the
/// full damage at distance zero, falling linearly to zero at the radius
/// edge — and zero at or beyond the radius.
pub open spec fn explosive_damage_at(ex: WeaponShotDamageExplosive, dsq: int) -> int {
    if dsq <= ex.damage_radius * ex.damage_radius {
        ex.damage * (ex.damage_radius - sqrt_floor(dsq as nat)) / (ex.damage_radius as int)
    } else {
        0
    }
}

/// The enemies after a detonation at `shot`: each takes the damage for its
/// own distance.
pub open spec fn explosion_applied(shot: Vec2, ex: WeaponShotDamageExplosive, s: Seq<Enemy>) -> Seq<
    Enemy,
> {
    s.map_values(|e: Enemy| enemy_damaged(e, explosive_damage_at(ex, dist_sq(shot, e.pos))))
}

/// Total damage a detonation at `shot` deals to the enemies: the sum of
/// the per-enemy amounts.
pub open spec fn explosion_total(shot: Vec2, ex: WeaponShotDamageExplosive, s: Seq<Enemy>) -> int
    decreases s.len(),
{
    if s.len() == 0 {
        0
    } else {
        explosion_total(shot, ex, s.drop_last()) + explosive_damage_at(
            ex,
            dist_sq(shot, s.last().pos),
        )
    }
}

/// Explosive damage at any squared distance is between zero and the full
/// damage.
pub proof fn lemma_explosive_damage_at_bounds(ex: WeaponShotDamageExplosive, dsq: int)
    requires
        0 < ex.damage_radius,
        0 <= ex.damage <= DAMAGE_LIMIT,
        0 <= dsq,
    ensures
        0 <= explosive_damage_at(ex, dsq) <= ex.damage,
{
    if dsq <= ex.damage_radius * ex.damage_radius {
        let d = sqrt_floor(dsq as nat) as int;
        lemma_sqrt_floor_le(dsq as nat, ex.damage_radius as nat);
        assert(0 <= ex.damage * (ex.damage_radius - d) / (ex.damage_radius as int) <= ex.damage)
            by (nonlinear_arith)
            requires 0 < ex.damage_radius, 0 <= ex.damage, 0 <= d <= ex.damage_radius;
    }
}

/// Direct-damage law: a shot within hit range of exactly one enemy
/// reduces that enemy's health by exactly the flat damage and leaves every
/// other enemy unchanged (stated away from the health bookkeeping floor,
/// which only an already hugely overkilled enemy can reach).
pub proof fn lemma_direct_damage_single_target(
    shot: Vec2,
    damage: int,
    enemies: Seq<Enemy>,
    j: int,
)
    requires
        0 <= j < enemies.len(),
        in_hit_range(shot, enemies[j]),
        forall|k: int| 0 <= k < enemies.len() && k != j
            ==> !in_hit_range(shot, #[trigger] enemies[k]),
        0 <= damage,
        enemies[j].health.actual - damage >= -crate::health::HEALTH_LIMIT,
    ensures
        first_hit(shot, enemies) == j,
        enemy_damaged(enemies[j], damage).health.actual == enemies[j].health.actual - damage,
        enemy_damaged(enemies[j], damage).health.max == enemies[j].health.max,
        forall|k: int| 0 <= k < enemies.len() && k != j
            ==> #[trigger] enemies.update(j, enemy_damaged(enemies[j], damage))[k] == enemies[k],
{
    lemma_first_hit_is(shot, enemies, j);
}

/// Explosive-damage law: a detonation deals each enemy inside the damage
/// radius exactly `damage * (radius - d) / radius` for its floored
/// distance `d` — the full damage at distance zero, exactly zero at the
/// radius, nothing beyond it — and the total over the whole swarm is the
/// sum of the per-enemy amounts.
pub proof fn lemma_explosive_damage_law(
    shot: Vec2,
    ex: WeaponShotDamageExplosive,
    enemies: Seq<Enemy>,
    j: int,
)
    requires
        0 < ex.damage_radius,
        0 <= ex.damage,
        0 <= j < enemies.len(),
        enemies[j].health.actual - explosive_damage_at(ex, dist_sq(shot, enemies[j].pos))
            >= -crate::health::HEALTH_LIMIT,
        0 <= explosive_damage_at(ex, dist_sq(shot, enemies[j].pos)),
    ensures
        explosion_applied(shot, ex, enemies).len() == enemies.len(),
        explosion_applied(shot, ex, enemies)[j].health.actual == enemies[j].health.actual
            - explosive_damage_at(ex, dist_sq(shot, enemies[j].pos)),
        dist_sq(shot, enemies[j].pos) > ex.damage_radius * ex.damage_radius
            ==> explosion_applied(shot, ex, enemies)[j].health.actual
                == enemies[j].health.actual
            && explosive_damage_at(ex, dist_sq(shot, enemies[j].pos)) == 0,
        dist_sq(shot, enemies[j].pos) == ex.damage_radius * ex.damage_radius
            ==> explosive_damage_at(ex, dist_sq(shot, enemies[j].pos)) == 0,
        explosion_total(shot, ex, enemies) == explosion_total(shot, ex, enemies.drop_last())
            + explosive_damage_at(ex, dist_sq(shot, enemies.last().pos)),
{
    let dsq = dist_sq(shot, enemies[j].pos);
    if dsq == ex.damage_radius * ex.damage_radius {
        lemma_sqrt_floor_square(ex.damage_radius as nat);
        let d = sqrt_floor(dsq as nat) as int;
        assert(d == ex.damage_radius);
        assert(ex.damage * (ex.damage_radius - d) == 0) by (nonlinear_arith)
            requires d == ex.damage_radius;
    }
}

/// Whether a shot at `shot` is within hit range of some enemy.
fn detonation_triggered(shot: &Vec2, enemies: &Vec<Enemy>) -> (r: bool)
    requires
        shot.in_coord_range(),
        forall|i: int| 0 <= i < enemies@.len() ==> (#[trigger] enemies@[i]).wf(),
    ensures
        r == (first_hit(*shot, enemies@) >= 0),
{
    let n = enemies.len();
    let mut i: usize = 0;
    while i < n
        invariant
            n == enemies@.len(),
            0 <= i <= n,
            shot.in_coord_range(),
            forall|j: int| 0 <= j < n ==> (#[trigger] enemies@[j]).wf(),
            forall|j: int| 0 <= j < i ==> !in_hit_range(*shot, #[trigger] enemies@[j]),
        decreases n - i,
    {
        let e = enemies[i];
        let dsq = distance_sq(*shot, e.pos);
        if dsq <= HIT_RADIUS * HIT_RADIUS {
            proof {
                lemma_first_hit_is(*shot, enemies@, i as int);
            }
            return true;
        }
        i = i + 1;
    }
    proof {
        lemma_first_hit_none(*shot, enemies@);
    }
    false
}

impl Weapon {
    /// Resolve this weapon's damage for one projectile standing at
    /// `self_pos` against the enemies, in iteration order.
    ///
    /// Direct damage: the first enemy within [`HIT_RADIUS`] takes the full
    /// flat damage and the amount is returned; no other enemy is touched,
    /// and with no enemy in range nothing changes and `None` is returned.
    ///
    /// Explosive damage: if no enemy is within [`HIT_RADIUS`] there is no
    /// detonation, nothing changes and `None` is returned; otherwise every
    /// enemy within the damage radius takes the linear-falloff damage for
    /// its distance and the sum of all applied damage is returned.
    pub fn try_apply_damage(&self, self_pos: &Vec2, enemies: &mut Vec<Enemy>) -> (r: Option<i64>)
        requires
            self.shot_params.wf(),
            self_pos.in_coord_range(),
            forall|i: int| 0 <= i < old(enemies)@.len() ==> (#[trigger] old(enemies)@[i]).wf(),
            old(enemies)@.len() <= MAX_TARGETS,
        ensures
            final(enemies)@.len() == old(enemies)@.len(),
            forall|i: int| 0 <= i < final(enemies)@.len()
                ==> (#[trigger] final(enemies)@[i]).wf(),
            (self.shot_params.damage matches WeaponShotDamage::Direct(d) ==> {
                let fh = first_hit(*self_pos, old(enemies)@);
                &&& (fh == -1 ==> r is None && final(enemies)@ == old(enemies)@)
                &&& (fh >= 0 ==> r == Some(d.damage) && final(enemies)@ == old(enemies)@.update(
                    fh,
                    enemy_damaged(old(enemies)@[fh], d.damage as int),
                ))
            }),
            (self.shot_params.damage matches WeaponShotDamage::Explosive(ex) ==> {
                let fh = first_hit(*self_pos, old(enemies)@);
                &&& (fh == -1 ==> r is None && final(enemies)@ == old(enemies)@)
                &&& (fh >= 0 ==> {
                    &&& final(enemies)@ == explosion_applied(*self_pos, ex, old(enemies)@)
                    &&& r is Some
                    &&& (r matches Some(t) ==> t == explosion_total(*self_pos, ex, old(enemies)@))
                    &&& explosion_total(*self_pos, ex, old(enemies)@) >= 0
                })
            }),
    {
        match self.shot_params.damage {
            WeaponShotDamage::Direct(direct) => {
                let n = enemies.len();
                let mut i: usize = 0;
                while i < n
                    invariant
                        n == enemies@.len(),
                        n == old(enemies)@.len(),
                        0 <= i <= n,
                        self_pos.in_coord_range(),
                        0 <= direct.damage <= DAMAGE_LIMIT,
                        self.shot_params.damage == WeaponShotDamage::Direct(direct),
                        forall|j: int| 0 <= j < n ==> #[trigger] enemies@[j] == old(enemies)@[j],
                        forall|j: int| 0 <= j < n ==> (#[trigger] old(enemies)@[j]).wf(),
                        forall|j: int| 0 <= j < i
                            ==> !in_hit_range(*self_pos, #[trigger] old(enemies)@[j]),
                    decreases n - i,
                {
                    let e = enemies[i];
                    let dsq = distance_sq(*self_pos, e.pos);
                    if dsq <= HIT_RADIUS * HIT_RADIUS {
                        let mut hit = e;
                        hit.health.apply_damage(direct.damage);
                        enemies.set(i, hit);
                        proof {
                            lemma_first_hit_is(*self_pos, old(enemies)@, i as int);
                            assert(enemies@ =~= old(enemies)@.update(
                                i as int,
                                enemy_damaged(old(enemies)@[i as int], direct.damage as int),
                            ));
                        }
                        return Some(direct.damage);
                    }
                    i = i + 1;
                }
                proof {
                    lemma_first_hit_none(*self_pos, old(enemies)@);
                }
                None
            },
            WeaponShotDamage::Explosive(explosive) => {
                if !detonation_triggered(self_pos, enemies) {
                    return None;
                }
                let n = enemies.len();
                let mut total: i64 = 0;
                let mut i: usize = 0;
                proof {
                    assert(0 < explosive.damage_radius * explosive.damage_radius
                        <= 1_000_000_000_000_000_000) by (nonlinear_arith)
                        requires 0 < explosive.damage_radius <= 1_000_000_000;
                }
                let radius_sq: i64 = explosive.damage_radius * explosive.damage_radius;
                while i < n
                    invariant
                        n == enemies@.len(),
                        n == old(enemies)@.len(),
                        n <= MAX_TARGETS,
                        0 <= i <= n,
                        self_pos.in_coord_range(),
                        0 <= explosive.damage <= DAMAGE_LIMIT,
                        0 < explosive.damage_radius <= 1_000_000_000,
                        radius_sq == explosive.damage_radius * explosive.damage_radius,
                        self.shot_params.damage == WeaponShotDamage::Explosive(explosive),
                        first_hit(*self_pos, old(enemies)@) >= 0,
                        forall|j: int| 0 <= j < n ==> (#[trigger] old(enemies)@[j]).wf(),
                        forall|j: int| i <= j < n
                            ==> #[trigger] enemies@[j] == old(enemies)@[j],
                        forall|j: int| 0 <= j < i ==> #[trigger] enemies@[j] == enemy_damaged(
                            old(enemies)@[j],
                            explosive_damage_at(
                                explosive,
                                dist_sq(*self_pos, old(enemies)@[j].pos),
                            ),
                        ),
                        forall|j: int| 0 <= j < i ==> (#[trigger] enemies@[j]).wf(),
                        total == explosion_total(
                            *self_pos,
                            explosive,
                            old(enemies)@.subrange(0, i as int),
                        ),
                        0 <= total <= i * DAMAGE_LIMIT,
                    decreases n - i,
                {
                    let e = enemies[i];
                    let dsq = distance_sq(*self_pos, e.pos);
                    proof {
                        lemma_explosive_damage_at_bounds(explosive, dsq as int);
                    }
                    if dsq <= radius_sq {
                        let d = distance(*self_pos, e.pos);
                        proof {
                            lemma_sqrt_floor_le(dsq as nat, explosive.damage_radius as nat);
                            assert(0 <= explosive.damage * (explosive.damage_radius - d)
                                <= 1_000_000_000_000_000) by (nonlinear_arith)
                                requires
                                    0 <= explosive.damage <= 1_000_000,
                                    0 <= explosive.damage_radius - d <= 1_000_000_000;
                        }
                        let amount: i64 = explosive.damage * (explosive.damage_radius - d)
                            / explosive.damage_radius;
                        let mut hit = e;
                        hit.health.apply_damage(amount);
                        enemies.set(i, hit);
                        total = total + amount;
                    } else {
                        proof {
                            assert(enemy_damaged(e, explosive_damage_at(
                                explosive,
                                dist_sq(*self_pos, e.pos),
                            )) == e);
                        }
                    }
                    proof {
                        let pre = old(enemies)@.subrange(0, i as int);
                        let post = old(enemies)@.subrange(0, i as int + 1);
                        assert(post.drop_last() =~= pre);
                        assert(post.last() == old(enemies)@[i as int]);
                    }
                    i = i + 1;
                }
                proof {
                    assert(old(enemies)@.subrange(0, n as int) =~= old(enemies)@);
                    assert(enemies@ =~= explosion_applied(*self_pos, explosive, old(enemies)@));
                }
                Some(total)
            },
        }
    }
}

} // verus!
