//! The per-frame enemy systems: the patrol-reverse-attack policy of each
//! enemy, and the probability-weighted spawn controller gated by the
//! population cap and driven by the difficulty level.

use vstd::prelude::*;
use crate::game_entity::MoveableSprite;
use crate::game_entity::MAX_TICK_MS;
use crate::game_entity::ennemies::Ennemy;
use crate::game_entity::ennemies::ENNEMY_AMO_IN_WEAPON;
use crate::game_entity::ennemies::INITIAL_HEALTH_POINTS;
use crate::game_entity::projectiles::Projectile;
use crate::game_system::GAME_AREA_LIMIT_X;
use crate::game_system::GAME_AREA_LIMIT_Y;
use crate::game_system::is_next_movement_out_of_game_area;
use crate::game_system::next_movement_out_of_game_area;
use crate::game_system::projectile_and_kill_gameplay::ennemies_wf;
use crate::game_system::projectile_and_kill_gameplay::projectiles_wf;
use crate::game_system::scoreboard::MAX_DIFFICULTY_LEVEL;
use crate::math_and_generator::DIRECTION_UNIT;
use crate::math_and_generator::abs_val;
use crate::math_and_generator::calculate_cartesian_distance;
use crate::math_and_generator::cartesian_distance;
use crate::math_and_generator::generate_random_direction_factor;
use crate::math_and_generator::generate_random_direction_factor_strict;
use crate::math_and_generator::generate_random_position;
use crate::math_and_generator::gen_range_i64;

verus! {

/// Population cap: no enemy spawns while this many are alive.
pub const MAXIMUM_NUMBER_OF_ENNEMIES: usize = 40;

/// Furthest an enemy patrols from its spawn position before reversing.
pub const MAXIMUM_ENNEMY_DISTANCE: i64 = 300;

/// Speed of a newly spawned enemy, in world units per second.
pub const INITIAL_ENNEMY_SPEED: i64 = 200;

/// Score value per hit of a newly spawned enemy.
pub const SPAWNED_ENNEMY_POINTS: u32 = 50;

/// Base of the spawn-probability factor at the lowest difficulty.
pub const SPAWN_FACTOR_CLASSIC_ENNEMY: u32 = 1_100;

/// An enemy after one frame of its policy: move along the current
/// direction, reverse the direction when the patrol radius is exceeded or
/// the next step would leave the playfield, then make an attack attempt.
pub open spec fn ennemy_ai_step(e: Ennemy, elapsed_ms: int) -> Ennemy {
    let moved = e.sprite_data.move_spec(elapsed_ms, e.sprite_data.direction);
    let reversed = if cartesian_distance(moved.initial_position, moved.current_position)
        > MAXIMUM_ENNEMY_DISTANCE || next_movement_out_of_game_area(
        moved.current_position,
        moved.direction,
    ) {
        MoveableSprite {
            direction: ((-moved.direction.0) as i64, (-moved.direction.1) as i64),
            ..moved
        }
    } else {
        moved
    };
    Ennemy { sprite_data: reversed, ..e }.attack_next(elapsed_ms)
}

/// The projectile an enemy's frame fires, if its attack attempt succeeds.
pub open spec fn ennemy_ai_fired(e: Ennemy, elapsed_ms: int) -> Option<Projectile> {
    let moved = e.sprite_data.move_spec(elapsed_ms, e.sprite_data.direction);
    if e.current_weapon.fire_ready(elapsed_ms) {
        Some(e.current_weapon.fired_projectile(e.fire_direction, moved.current_position, true))
    } else {
        None
    }
}

/// The projectiles fired by a sequence of enemies in one frame, in order.
pub open spec fn fired_projectiles(s: Seq<Ennemy>, elapsed_ms: int) -> Seq<Projectile>
    decreases s.len(),
{
    if s.len() == 0 {
        Seq::empty()
    } else {
        let prev = fired_projectiles(s.drop_last(), elapsed_ms);
        match ennemy_ai_fired(s.last(), elapsed_ms) {
            Some(p) => prev.push(p),
            None => prev,
        }
    }
}

/// Each enemy fires at most one projectile per frame.
pub proof fn lemma_fired_projectiles_len(s: Seq<Ennemy>, elapsed_ms: int)
    ensures
        fired_projectiles(s, elapsed_ms).len() <= s.len(),
    decreases s.len(),
{
    if s.len() > 0 {
        lemma_fired_projectiles_len(s.drop_last(), elapsed_ms);
    }
}

/// A sequence of enemies after one frame of every enemy's policy, in order.
pub open spec fn stepped_ennemies(s: Seq<Ennemy>, elapsed_ms: int) -> Seq<Ennemy>
    decreases s.len(),
{
    if s.len() == 0 {
        Seq::empty()
    } else {
        stepped_ennemies(s.drop_last(), elapsed_ms).push(ennemy_ai_step(s.last(), elapsed_ms))
    }
}

/// Run one frame of one enemy's policy: move, reverse when out of patrol
/// range or about to leave the playfield, attack.  Returns the projectile
/// fired, if any.
pub fn ennemy_movement_and_attack(ennemy: &mut Ennemy, elapsed_ms: u32) -> (fired: Option<
    Projectile,
>)
    requires
        old(ennemy).wf(),
        elapsed_ms <= MAX_TICK_MS,
    ensures
        *final(ennemy) == ennemy_ai_step(*old(ennemy), elapsed_ms as int),
        fired == ennemy_ai_fired(*old(ennemy), elapsed_ms as int),
        final(ennemy).wf(),
        fired matches Some(p) ==> p.wf(),
{
    let ennemy_direction = ennemy.sprite_data.get_direction();
    ennemy.sprite_data.move_sprite(elapsed_ms, ennemy_direction);

    let patrol_distance = calculate_cartesian_distance(
        ennemy.get_initial_position(),
        ennemy.sprite_data.get_position(),
    );
    if patrol_distance > MAXIMUM_ENNEMY_DISTANCE || is_next_movement_out_of_game_area(
        ennemy.sprite_data.get_position(),
        ennemy_direction,
    ) {
        ennemy.sprite_data.set_new_direction((-ennemy_direction.0, -ennemy_direction.1));
    }

    ennemy.launch_attack(elapsed_ms)
}

/// Run one frame of every enemy's policy, in store order.  Returns the
/// projectiles the enemies fired, in the same order.
pub fn movement_of_ennemies(ennemies: &mut Vec<Ennemy>, elapsed_ms: u32) -> (fired: Vec<
    Projectile,
>)
    requires
        ennemies_wf(old(ennemies)@),
        elapsed_ms <= MAX_TICK_MS,
    ensures
        final(ennemies)@ == stepped_ennemies(old(ennemies)@, elapsed_ms as int),
        fired@ == fired_projectiles(old(ennemies)@, elapsed_ms as int),
        ennemies_wf(final(ennemies)@),
        projectiles_wf(fired@),
{
    let ghost s = ennemies@;
    let total = ennemies.len();
    let mut moved: Vec<Ennemy> = Vec::new();
    let mut fired: Vec<Projectile> = Vec::new();
    let mut i: usize = 0;
    while ennemies.len() > 0
        invariant
            s == old(ennemies)@,
            s.len() == total,
            ennemies_wf(s),
            elapsed_ms <= MAX_TICK_MS,
            i + ennemies@.len() == s.len(),
            ennemies@ == s.subrange(i as int, s.len() as int),
            moved@ == stepped_ennemies(s.subrange(0, i as int), elapsed_ms as int),
            fired@ == fired_projectiles(s.subrange(0, i as int), elapsed_ms as int),
            ennemies_wf(moved@),
            projectiles_wf(fired@),
        decreases ennemies@.len(),
    {
        let mut ennemy = ennemies.remove(0);
        proof {
            assert(ennemy == s[i as int]);
            assert(ennemies@ =~= s.subrange(i + 1, s.len() as int));
            assert(s.subrange(0, i + 1).drop_last() =~= s.subrange(0, i as int));
            assert(s.subrange(0, i + 1).last() == s[i as int]);
        }
        let shot = ennemy_movement_and_attack(&mut ennemy, elapsed_ms);
        moved.push(ennemy);
        if let Some(projectile) = shot {
            fired.push(projectile);
        }
        i = i + 1;
    }
    proof {
        assert(s.subrange(0, s.len() as int) =~= s);
    }
    *ennemies = moved;
    fired
}

/// What holds of every freshly spawned enemy: a well-formed enemy at a
/// position inside the playfield, with the fixed spawn speed and score
/// value, full health, a full default weapon, and a strict fire direction
/// whose component magnitudes sum to one unit.
pub open spec fn valid_spawned_ennemy(e: Ennemy) -> bool {
    &&& e.wf()
    &&& e.sprite_data.speed == INITIAL_ENNEMY_SPEED
    &&& e.points_per_hits == SPAWNED_ENNEMY_POINTS
    &&& e.health == INITIAL_HEALTH_POINTS
    &&& e.current_weapon.current_amo == ENNEMY_AMO_IN_WEAPON
    &&& e.sprite_data.current_position == e.sprite_data.initial_position
    &&& -GAME_AREA_LIMIT_X <= e.sprite_data.current_position.0 < GAME_AREA_LIMIT_X
    &&& -GAME_AREA_LIMIT_Y <= e.sprite_data.current_position.1 < GAME_AREA_LIMIT_Y
    &&& -DIRECTION_UNIT <= e.sprite_data.direction.0 < DIRECTION_UNIT
    &&& -DIRECTION_UNIT <= e.sprite_data.direction.1 < DIRECTION_UNIT
    &&& abs_val(e.fire_direction.0 as int) + abs_val(e.fire_direction.1 as int) == DIRECTION_UNIT
}

/// Spawn one enemy at a random position inside the playfield, with a
/// random movement direction and a strict random fire direction.
pub fn generate_new_ennemy() -> (r: Ennemy)
    ensures
        valid_spawned_ennemy(r),
{
    let ennemy_initial_position = generate_random_position(GAME_AREA_LIMIT_X, GAME_AREA_LIMIT_Y);
    let ennemy_initial_direction = generate_random_direction_factor();
    let ennemy_fire_direction = generate_random_direction_factor_strict();

    Ennemy::new_with_fire_direction(
        INITIAL_ENNEMY_SPEED,
        ennemy_initial_direction,
        ennemy_initial_position,
        ennemy_fire_direction,
        SPAWNED_ENNEMY_POINTS,
    )
}

/// How much the spawn-probability factor shrinks per difficulty level.
pub const SPAWN_FACTOR_PER_DIFFICULTY_LEVEL: u32 = 200;

/// Largest gate draw that spawns an enemy: of the `spawn_factor` equally
/// likely draws, the three values at most this one spawn, so the per-frame
/// spawn probability is `3 / spawn_factor`.
pub const SPAWN_GATE_THRESHOLD: i64 = 2;

/// Compute the spawn-probability factor of one difficulty level: the base
/// factor shrinks by a fixed amount per level, so the spawn probability
/// rises with the difficulty.  The difficulty cap keeps the factor at one
/// hundred or more.
pub fn spawn_factor(difficulty_level: u32) -> (r: u32)
    requires
        difficulty_level <= MAX_DIFFICULTY_LEVEL,
    ensures
        r == SPAWN_FACTOR_CLASSIC_ENNEMY - SPAWN_FACTOR_PER_DIFFICULTY_LEVEL * difficulty_level,
        r >= 100,
{
    SPAWN_FACTOR_CLASSIC_ENNEMY - SPAWN_FACTOR_PER_DIFFICULTY_LEVEL * difficulty_level
}

/// Decide the spawn question on one uniform draw: an enemy spawns exactly
/// when the draw is at most `SPAWN_GATE_THRESHOLD`.
pub fn spawn_gate(draw: i64) -> (r: bool)
    ensures
        r == (draw <= SPAWN_GATE_THRESHOLD),
{
    draw <= SPAWN_GATE_THRESHOLD
}

/// Decide one frame's spawn: a uniform draw in
/// `[0, spawn_factor(difficulty_level))` spawns one new enemy exactly when
/// `spawn_gate` accepts it, so with probability `3 / spawn_factor`, rising
/// with the difficulty.
pub fn ennemy_spawn_system(difficulty_level: u32) -> (r: Option<Ennemy>)
    requires
        difficulty_level <= MAX_DIFFICULTY_LEVEL,
    ensures
        r matches Some(e) ==> valid_spawned_ennemy(e),
{
    let generated_spawn_factor = spawn_factor(difficulty_level);

    let rand_system = gen_range_i64(0, generated_spawn_factor as i64);

    if spawn_gate(rand_system) {
        Some(generate_new_ennemy())
    } else {
        None
    }
}

/// Run one frame of the enemy side: every enemy moves and attacks, then,
/// while the population cap is not reached, the spawn gate may add one new
/// enemy at the end of the store.  Returns the projectiles fired.
pub fn ennemy_ai_system(
    ennemies: &mut Vec<Ennemy>,
    difficulty_level: u32,
    elapsed_ms: u32,
) -> (fired: Vec<Projectile>)
    requires
        ennemies_wf(old(ennemies)@),
        difficulty_level <= MAX_DIFFICULTY_LEVEL,
        elapsed_ms <= MAX_TICK_MS,
    ensures
        ({
            let stepped = stepped_ennemies(old(ennemies)@, elapsed_ms as int);
            &&& fired@ == fired_projectiles(old(ennemies)@, elapsed_ms as int)
            &&& (final(ennemies)@ == stepped || (stepped.len() < MAXIMUM_NUMBER_OF_ENNEMIES
                && final(ennemies)@.len() == stepped.len() + 1 && final(ennemies)@.subrange(
                0,
                stepped.len() as int,
            ) == stepped && valid_spawned_ennemy(final(ennemies)@.last())))
            &&& ennemies_wf(final(ennemies)@)
            &&& projectiles_wf(fired@)
        }),
{
    let fired = movement_of_ennemies(ennemies, elapsed_ms);

    let ennemies_spawned = ennemies.len();

    if ennemies_spawned < MAXIMUM_NUMBER_OF_ENNEMIES {
        if let Some(new_ennemy) = ennemy_spawn_system(difficulty_level) {
            ennemies.push(new_ennemy);
            proof {
                assert(ennemies@.subrange(0, ennemies@.len() - 1) =~= ennemies@.drop_last());
            }
        }
    }

    fired
}

} // verus!
