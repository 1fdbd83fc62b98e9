//! The per-tick combat resolution loop.
//!
//! Every simulation tick runs, in this order: advance and cull
//! projectiles, move the swarm, apply player movement input, advance the
//! weapon timer and — while the trigger is held — evaluate the fire/reload
//! transition, resolve every live projectile's damage against the
//! post-movement enemy positions, despawn dead enemies, and evaluate the
//! loss condition on the survivors. Movement always happens before
//! collision, and collision before despawning, so a tick is deterministic
//! given its time delta and random draws.

use vstd::prelude::*;

use crate::arena::ArenaLayout;
use crate::arena::Viewport;
use crate::damage::enemy_damaged;
use crate::damage::explosion_applied;
use crate::damage::first_hit;
use crate::damage::MAX_TARGETS;
use crate::enemy::any_touched_down;
use crate::enemy::game_over_swarm_criteria;
use crate::enemy::move_enemies;
use crate::enemy::spawn_enemy_swarm;
use crate::enemy::Enemy;
use crate::enemy::ENEMY_SWARM_COUNT;
use crate::geom::Vec2;
use crate::motion::valid_dt;
use crate::player::movement_controls_handler;
use crate::player::Player;
use crate::player::PLAYER_SPEED;
use crate::projectile::Projectile;
use crate::weapon::Weapon;
use crate::weapon::WeaponShotDamage;

verus! {

/// How far beyond the battle-area edges a projectile may travel before it
/// is despawned, in units.
pub const PROJECTILE_TRAVEL_MARGIN: i64 = 1000;

/// The region a projectile may occupy: the battle area plus the travel
/// margin on every side.
pub open spec fn in_travel_bound(pos: Vec2, arena: ArenaLayout) -> bool {
    arena.left - PROJECTILE_TRAVEL_MARGIN <= pos.x <= arena.right + PROJECTILE_TRAVEL_MARGIN
        && arena.bottom - PROJECTILE_TRAVEL_MARGIN <= pos.y
            <= arena.top + PROJECTILE_TRAVEL_MARGIN
}

/// The projectiles after one tick of flight, keeping only those still
/// within the travel bound, in order.
pub open spec fn advanced_kept(s: Seq<Projectile>, arena: ArenaLayout, dt: int) -> Seq<Projectile>
    decreases s.len(),
{
    if s.len() == 0 {
        Seq::empty()
    } else {
        let rest = advanced_kept(s.drop_last(), arena, dt);
        let p = s.last().advanced(dt);
        if in_travel_bound(p.pos, arena) {
            rest.push(p)
        } else {
            rest
        }
    }
}

/// Advance all projectiles and despawn, without further effect, any whose
/// new position has left the travel bound.
pub fn move_projectile(projectiles: &mut Vec<Projectile>, arena: &ArenaLayout, dt: i64)
    requires
        arena.wf(),
        valid_dt(dt as int),
        forall|i: int| 0 <= i < old(projectiles)@.len() ==> {
            &&& (#[trigger] old(projectiles)@[i]).wf()
            &&& in_travel_bound(old(projectiles)@[i].pos, *arena)
        },
    ensures
        final(projectiles)@ == advanced_kept(old(projectiles)@, *arena, dt as int),
        forall|i: int| 0 <= i < final(projectiles)@.len() ==> {
            &&& (#[trigger] final(projectiles)@[i]).wf()
            &&& in_travel_bound(final(projectiles)@[i].pos, *arena)
        },
{
    let n = projectiles.len();
    let mut kept: Vec<Projectile> = Vec::new();
    let mut i: usize = 0;
    while i < n
        invariant
            arena.wf(),
            valid_dt(dt as int),
            n == projectiles@.len(),
            projectiles@ == old(projectiles)@,
            0 <= i <= n,
            forall|j: int| 0 <= j < n ==> {
                &&& (#[trigger] old(projectiles)@[j]).wf()
                &&& in_travel_bound(old(projectiles)@[j].pos, *arena)
            },
            kept@ == advanced_kept(old(projectiles)@.subrange(0, i as int), *arena, dt as int),
            forall|j: int| 0 <= j < kept@.len() ==> {
                &&& (#[trigger] kept@[j]).wf()
                &&& in_travel_bound(kept@[j].pos, *arena)
            },
        decreases n - i,
    {
        let mut p = projectiles[i];
        p.advance(dt);
        if p.pos.x >= arena.left - PROJECTILE_TRAVEL_MARGIN
            && p.pos.x <= arena.right + PROJECTILE_TRAVEL_MARGIN
            && p.pos.y >= arena.bottom - PROJECTILE_TRAVEL_MARGIN
            && p.pos.y <= arena.top + PROJECTILE_TRAVEL_MARGIN {
            kept.push(p);
        }
        proof {
            let pre = old(projectiles)@.subrange(0, i as int);
            let post = old(projectiles)@.subrange(0, i as int + 1);
            assert(post.drop_last() =~= pre);
            assert(post.last() == old(projectiles)@[i as int]);
        }
        i = i + 1;
    }
    proof {
        assert(old(projectiles)@.subrange(0, n as int) =~= old(projectiles)@);
    }
    *projectiles = kept;
}

/// The enemies left after death cleanup: those with hit points remaining,
/// in order.
pub open spec fn survivors(s: Seq<Enemy>) -> Seq<Enemy>
    decreases s.len(),
{
    if s.len() == 0 {
        Seq::empty()
    } else {
        let rest = survivors(s.drop_last());
        if s.last().health.actual > 0 {
            rest.push(s.last())
        } else {
            rest
        }
    }
}

/// Despawn every enemy whose health is dead, keeping the others in order.
pub fn despawn_enemies(enemies: &mut Vec<Enemy>)
    requires
        forall|i: int| 0 <= i < old(enemies)@.len() ==> (#[trigger] old(enemies)@[i]).wf(),
    ensures
        final(enemies)@ == survivors(old(enemies)@),
        final(enemies)@.len() <= old(enemies)@.len(),
        forall|i: int| 0 <= i < final(enemies)@.len() ==> {
            &&& (#[trigger] final(enemies)@[i]).wf()
            &&& final(enemies)@[i].health.actual > 0
        },
{
    let n = enemies.len();
    let mut kept: Vec<Enemy> = Vec::new();
    let mut i: usize = 0;
    while i < n
        invariant
            n == enemies@.len(),
            enemies@ == old(enemies)@,
            0 <= i <= n,
            forall|j: int| 0 <= j < n ==> (#[trigger] old(enemies)@[j]).wf(),
            kept@ == survivors(old(enemies)@.subrange(0, i as int)),
            kept@.len() <= i,
            forall|j: int| 0 <= j < kept@.len() ==> {
                &&& (#[trigger] kept@[j]).wf()
                &&& kept@[j].health.actual > 0
            },
        decreases n - i,
    {
        let e = enemies[i];
        if !e.health.dead() {
            kept.push(e);
        }
        proof {
            let pre = old(enemies)@.subrange(0, i as int);
            let post = old(enemies)@.subrange(0, i as int + 1);
            assert(post.drop_last() =~= pre);
            assert(post.last() == old(enemies)@[i as int]);
        }
        i = i + 1;
    }
    proof {
        assert(old(enemies)@.subrange(0, n as int) =~= old(enemies)@);
    }
    *enemies = kept;
}

/// The enemies after one projectile's damage resolution: unchanged when
/// nothing is in hit range, otherwise deducted per the damage variant.
pub open spec fn apply_one_damage(
    damage: WeaponShotDamage,
    shot: Projectile,
    enemies: Seq<Enemy>,
) -> Seq<Enemy> {
    let fh = first_hit(shot.pos, enemies);
    if fh < 0 {
        enemies
    } else {
        match damage {
            WeaponShotDamage::Direct(d) => enemies.update(
                fh,
                enemy_damaged(enemies[fh], d.damage as int),
            ),
            WeaponShotDamage::Explosive(ex) => explosion_applied(shot.pos, ex, enemies),
        }
    }
}

/// Resolve every projectile in order against the evolving enemies: each
/// projectile that registers a hit is despawned, the others are kept in
/// order; each projectile sees the enemies as the previous ones left them.
pub open spec fn resolve_spec(
    damage: WeaponShotDamage,
    shots: Seq<Projectile>,
    enemies: Seq<Enemy>,
) -> (Seq<Projectile>, Seq<Enemy>)
    decreases shots.len(),
{
    if shots.len() == 0 {
        (Seq::empty(), enemies)
    } else {
        let prior = resolve_spec(damage, shots.drop_last(), enemies);
        let shot = shots.last();
        let kept = if first_hit(shot.pos, prior.1) < 0 {
            prior.0.push(shot)
        } else {
            prior.0
        };
        (kept, apply_one_damage(damage, shot, prior.1))
    }
}

/// Resolve damage for every live projectile against the current enemies,
/// despawning each projectile that registered a hit.
pub fn hit_controls_handler(
    weapon: &Weapon,
    projectiles: &mut Vec<Projectile>,
    enemies: &mut Vec<Enemy>,
)
    requires
        weapon.shot_params.wf(),
        forall|i: int| 0 <= i < old(projectiles)@.len() ==> {
            &&& (#[trigger] old(projectiles)@[i]).wf()
            &&& old(projectiles)@[i].pos.in_coord_range()
        },
        forall|i: int| 0 <= i < old(enemies)@.len() ==> (#[trigger] old(enemies)@[i]).wf(),
        old(enemies)@.len() <= MAX_TARGETS,
    ensures
        final(projectiles)@ == resolve_spec(
            weapon.shot_params.damage,
            old(projectiles)@,
            old(enemies)@,
        ).0,
        final(enemies)@ == resolve_spec(
            weapon.shot_params.damage,
            old(projectiles)@,
            old(enemies)@,
        ).1,
        final(enemies)@.len() == old(enemies)@.len(),
        forall|i: int| 0 <= i < final(enemies)@.len() ==> (#[trigger] final(enemies)@[i]).wf(),
        forall|i: int| 0 <= i < final(projectiles)@.len() ==> {
            &&& (#[trigger] final(projectiles)@[i]).wf()
            &&& old(projectiles)@.contains(final(projectiles)@[i])
        },
{
    let n = projectiles.len();
    let mut kept: Vec<Projectile> = Vec::new();
    let mut i: usize = 0;
    while i < n
        invariant
            weapon.shot_params.wf(),
            n == projectiles@.len(),
            projectiles@ == old(projectiles)@,
            0 <= i <= n,
            forall|j: int| 0 <= j < n ==> {
                &&& (#[trigger] old(projectiles)@[j]).wf()
                &&& old(projectiles)@[j].pos.in_coord_range()
            },
            kept@ == resolve_spec(
                weapon.shot_params.damage,
                old(projectiles)@.subrange(0, i as int),
                old(enemies)@,
            ).0,
            enemies@ == resolve_spec(
                weapon.shot_params.damage,
                old(projectiles)@.subrange(0, i as int),
                old(enemies)@,
            ).1,
            enemies@.len() == old(enemies)@.len(),
            old(enemies)@.len() <= MAX_TARGETS,
            forall|j: int| 0 <= j < enemies@.len() ==> (#[trigger] enemies@[j]).wf(),
            forall|j: int| 0 <= j < kept@.len() ==> {
                &&& (#[trigger] kept@[j]).wf()
                &&& old(projectiles)@.contains(kept@[j])
            },
        decreases n - i,
    {
        let p = projectiles[i];
        let hit = weapon.try_apply_damage(&p.pos, enemies);
        if hit.is_none() {
            kept.push(p);
            proof {
                assert(old(projectiles)@.contains(p)) by {
                    assert(old(projectiles)@[i as int] == p);
                }
            }
        }
        proof {
            let pre = old(projectiles)@.subrange(0, i as int);
            let post = old(projectiles)@.subrange(0, i as int + 1);
            assert(post.drop_last() =~= pre);
            assert(post.last() == old(projectiles)@[i as int]);
        }
        i = i + 1;
    }
    proof {
        assert(old(projectiles)@.subrange(0, n as int) =~= old(projectiles)@);
    }
    *projectiles = kept;
}

/// The input signals sampled once per tick.
#[derive(Clone, Copy, Debug, PartialEq, Eq, Structural)]
pub struct InputState {
    pub move_left: bool,
    pub move_right: bool,
    pub fire: bool,
}

/// What one tick reports to the surrounding state-transition system.
#[derive(Clone, Copy, Debug, PartialEq, Eq, Structural)]
pub struct TickOutcome {
    pub game_over: bool,
    pub fired: bool,
}

/// The enemies after one tick of swarm motion.
pub open spec fn moved_enemies(s: Seq<Enemy>, dt: int) -> Seq<Enemy> {
    s.map_values(|e: Enemy| e.moved(dt))
}

/// The whole mutable state of one encounter.
#[derive(Clone, Debug)]
pub struct EncounterState {
    pub arena: ArenaLayout,
    pub player: Player,
    pub enemies: Vec<Enemy>,
    pub projectiles: Vec<Projectile>,
}

impl EncounterState {
    /// Invariant between ticks: every entity is well-formed, projectiles
    /// are within the travel bound, and the player stands inside the
    /// battle area so fresh shots spawn within the travel bound.
    pub open spec fn wf(self) -> bool {
        self.arena.wf()
        && self.player.wf()
        && self.arena.left <= self.player.movable.bound.min
        && self.player.movable.bound.max <= self.arena.right
        && self.arena.bottom <= self.player.pos.y <= self.arena.top
        && self.enemies@.len() <= MAX_TARGETS
        && (forall|i: int| 0 <= i < self.enemies@.len() ==> (#[trigger] self.enemies@[i]).wf())
        && (forall|i: int| 0 <= i < self.projectiles@.len() ==> {
            &&& (#[trigger] self.projectiles@[i]).wf()
            &&& in_travel_bound(self.projectiles@[i].pos, self.arena)
        })
    }

    /// Set up one encounter: derive the arena from the viewport, spawn the
    /// player with the shotgun, and spawn the enemy swarm. The arena and
    /// player are the exact formulas of the viewport; of the randomized
    /// swarm, everything but the drawn values themselves is pinned: count,
    /// spawn band, speed ranges, bounds and full health of every enemy.
    pub fn new(window: &Viewport, rng: &mut rand::rngs::StdRng) -> (r: EncounterState)
        requires
            window.wf(),
        ensures
            r.wf(),
            r.arena == crate::arena::layout_of(*window),
            r.player == crate::player::initial_player(*window, PLAYER_SPEED),
            r.player.weapon.is_fresh(),
            r.projectiles@.len() == 0,
            r.enemies@.len() == ENEMY_SWARM_COUNT,
            forall|i: int| 0 <= i < r.enemies@.len() ==> {
                &&& (#[trigger] r.enemies@[i]).wf()
                &&& r.arena.left + crate::enemy::ENEMY_ENTITY_WIDTH / 2 <= r.enemies@[i].pos.x
                    <= r.arena.right - crate::enemy::ENEMY_ENTITY_WIDTH / 2
                &&& r.arena.spawn_bottom <= r.enemies@[i].pos.y < r.arena.spawn_top
                &&& crate::enemy::ENEMY_HORIZONTAL_SPEED_MIN <= r.enemies@[i].movable_x.speed.0
                    < crate::enemy::ENEMY_HORIZONTAL_SPEED_MAX
                &&& crate::enemy::ENEMY_VERTICAL_SPEED_MIN <= r.enemies@[i].movable_y.speed.0
                    < crate::enemy::ENEMY_VERTICAL_SPEED_MAX
                &&& r.enemies@[i].bounded_by(r.arena)
                &&& r.enemies@[i].health == (crate::health::Health {
                    max: crate::enemy::ENEMY_MAX_HP,
                    actual: crate::enemy::ENEMY_MAX_HP,
                })
            },
            !any_touched_down(r.enemies@, r.arena),
    {
        let arena = ArenaLayout::new(window);
        let player = Player::new(window, PLAYER_SPEED);
        let enemies = spawn_enemy_swarm(&arena, rng);
        proof {
            let h = window.height as int;
            assert(h * 5 / 100 + 45 <= h * 90 / 100) by (nonlinear_arith)
                requires 200 <= h <= 1_000_000;
            assert(forall|i: int| 0 <= i < enemies@.len()
                ==> !(#[trigger] enemies@[i]).touched_down(arena));
        }
        EncounterState { arena, player, enemies, projectiles: Vec::new() }
    }

    /// What one tick does, with the freshly fired shots `new_shots` as the
    /// only unconstrained part (their spread deviations are random): the
    /// old projectiles advance and out-of-bound ones despawn, the enemies
    /// bounce and descend, movement input applies to the player, the
    /// weapon timer advances and — with the trigger held — the fire/reload
    /// table is evaluated, the old and fresh projectiles resolve damage in
    /// order against the post-movement enemies, and dead enemies despawn.
    pub open spec fn tick_rel(
        pre: EncounterState,
        post: EncounterState,
        input: InputState,
        dt: int,
        fired: bool,
        new_shots: Seq<Projectile>,
    ) -> bool {
        let projectiles1 = advanced_kept(pre.projectiles@, pre.arena, dt);
        let enemies1 = moved_enemies(pre.enemies@, dt);
        let player1 = pre.player.moved(input.move_left, input.move_right, dt);
        let weapon1 = player1.weapon.after_tick(dt);
        let weapon2 = if input.fire {
            weapon1.shoot_transition()
        } else {
            weapon1
        };
        let resolved = resolve_spec(
            weapon2.shot_params.damage,
            projectiles1 + new_shots,
            enemies1,
        );
        &&& (fired <==> input.fire && weapon1.fires())
        &&& (fired ==> {
            &&& new_shots.len() == weapon1.shot_params.projectiles
            &&& forall|i: int| 0 <= i < new_shots.len() ==> {
                &&& (#[trigger] new_shots[i]).wf()
                &&& new_shots[i].pos == player1.pos
                &&& new_shots[i].velocity.speed.0 == weapon1.shot_params.shot_speed
                &&& -(weapon1.shot_params.spread_cd / 2) <= new_shots[i].heading_cd
                    <= weapon1.shot_params.spread_cd / 2
            }
        })
        &&& (!fired ==> new_shots.len() == 0)
        &&& post.arena == pre.arena
        &&& post.player == (Player { weapon: weapon2, ..player1 })
        &&& post.projectiles@ == resolved.0
        &&& post.enemies@ == survivors(resolved.1)
    }

    /// Run one simulation tick, in the fixed order: projectiles advance
    /// and out-of-bound ones despawn; enemies bounce and descend; player
    /// movement input applies; the weapon timer advances and, with the
    /// trigger held, the fire/reload table is evaluated, spawning the
    /// emitted shots; every projectile then resolves damage against the
    /// post-movement enemies and despawns on a hit; dead enemies despawn;
    /// and the loss condition is evaluated on the survivors.
    ///
    /// [`EncounterState::tick_rel`] pins every part of the new state.
    pub fn tick(&mut self, input: InputState, dt: i64, rng: &mut rand::rngs::StdRng) -> (r:
        TickOutcome)
        requires
            old(self).wf(),
            valid_dt(dt as int),
        ensures
            final(self).wf(),
            final(self).arena == old(self).arena,
            r.game_over == any_touched_down(final(self).enemies@, final(self).arena),
            exists|new_shots: Seq<Projectile>| #[trigger] EncounterState::tick_rel(
                *old(self),
                *final(self),
                input,
                dt as int,
                r.fired,
                new_shots,
            ),
    {
        move_projectile(&mut self.projectiles, &self.arena, dt);
        move_enemies(&mut self.enemies, dt);
        proof {
            assert(self.enemies@ =~= moved_enemies(old(self).enemies@, dt as int));
        }
        movement_controls_handler(&mut self.player, input.move_left, input.move_right, dt);
        self.player.weapon.tick(dt);
        let mut fired = false;
        let ghost projectiles1 = self.projectiles@;
        let ghost mut new_shots_g: Seq<Projectile> = Seq::empty();
        if input.fire {
            let spawn_pos = self.player.pos;
            match self.player.weapon.shoot(spawn_pos, rng) {
                Some(mut shots) => {
                    fired = true;
                    proof {
                        new_shots_g = shots@;
                    }
                    self.projectiles.append(&mut shots);
                },
                None => {},
            }
        }
        let ghost pre_resolve = self.projectiles@;
        proof {
            assert(pre_resolve =~= projectiles1 + new_shots_g);
            assert forall|i: int| 0 <= i < pre_resolve.len() implies {
                &&& (#[trigger] pre_resolve[i]).wf()
                &&& in_travel_bound(pre_resolve[i].pos, self.arena)
                &&& pre_resolve[i].pos.in_coord_range()
            } by {
                if i >= projectiles1.len() {
                    assert(pre_resolve[i] == new_shots_g[i - projectiles1.len()]);
                }
            }
        }
        hit_controls_handler(&self.player.weapon, &mut self.projectiles, &mut self.enemies);
        proof {
            assert forall|i: int| 0 <= i < self.projectiles@.len() implies {
                &&& (#[trigger] self.projectiles@[i]).wf()
                &&& in_travel_bound(self.projectiles@[i].pos, self.arena)
            } by {
                assert(pre_resolve.contains(self.projectiles@[i]));
                let j = choose|j: int|
                    0 <= j < pre_resolve.len() && pre_resolve[j] == self.projectiles@[i];
                assert(pre_resolve[j] == self.projectiles@[i]);
            }
        }
        despawn_enemies(&mut self.enemies);
        let game_over = game_over_swarm_criteria(&self.enemies, &self.arena);
        let r = TickOutcome { game_over, fired };
        proof {
            assert(EncounterState::tick_rel(
                *old(self),
                *self,
                input,
                dt as int,
                r.fired,
                new_shots_g,
            ));
            assert(exists|new_shots: Seq<Projectile>| #[trigger] EncounterState::tick_rel(
                *old(self),
                *self,
                input,
                dt as int,
                r.fired,
                new_shots,
            ));
        }
        r
    }

    /// Count of live enemies, for the surrounding UI.
    pub fn live_enemy_count(&self) -> (r: usize)
        ensures
            r == self.enemies@.len(),
    {
        self.enemies.len()
    }
}

} // verus!
