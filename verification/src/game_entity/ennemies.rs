//! Enemy entities: a moveable entity, a low-ammunition pistol, health, a
//! fixed fire direction assigned at spawn, and a score value per hit.

use vstd::prelude::*;
use crate::game_entity::MoveableSprite;
use crate::game_entity::MAX_SPEED;
use crate::game_entity::MAX_TICK_MS;
use crate::game_entity::valid_direction;
use crate::game_entity::projectiles::Projectile;
use crate::math_and_generator::in_coord_range;
use crate::weapons::Pistol;

verus! {

/// Speed of the projectiles of an enemy weapon, in world units per second.
pub const ENNEMY_PROJECTILE_SPEED: i64 = 300;

/// Rounds a full reload of an enemy weapon restores.
pub const ENNEMY_AMO_IN_WEAPON: u32 = 3;

/// Distance limit of the projectiles of an enemy weapon.
pub const ENNEMY_LIMIT_OF_FIRE: u32 = 500;

/// Fire-rate cooldown of an enemy weapon, in milliseconds.
pub const ENNEMY_FIRE_RATE_MS: u32 = 500;

/// Health points an enemy starts with.
pub const INITIAL_HEALTH_POINTS: i32 = 3;

/// Death bonus factor: the score awarded when an enemy dies is its per-hit
/// value times this.
pub const DEATH_POINT_COEF: u32 = 4;

/// Full hitbox extent of an enemy along the x axis.
pub const DEFAULT_ENNEMY_HITBOX_X: i64 = 40;

/// Full hitbox extent of an enemy along the y axis.
pub const DEFAULT_ENNEMY_HITBOX_Y: i64 = 50;

/// Reload cooldown of an enemy: a reload is forced whenever this much time
/// accumulates, in milliseconds.
pub const ENNEMY_COOLDOWN_TICK_MS: u64 = 2_500;

/// Largest score value per hit an enemy accepts; keeps the death bonus
/// within `u32` range.
pub const MAX_POINTS_PER_HITS: u32 = 1_000_000;

/// An enemy entity: all the data necessary for a single enemy.
pub struct Ennemy {
    /// The embedded moveable-entity state.
    pub sprite_data: MoveableSprite,
    /// Remaining health points; the enemy is dead below one.
    pub health: i32,
    /// The weapon the enemy fires with.
    pub current_weapon: Pistol,
    /// Time accumulated towards the next forced reload, in milliseconds.
    pub tick_elapsed_ms: u64,
    /// The reload cooldown, in milliseconds.
    pub cooldown_tick_ms: u64,
    /// The fixed direction the enemy fires at, assigned at spawn.
    pub fire_direction: (i64, i64),
    /// Score value per hit.
    pub points_per_hits: u32,
}

impl Ennemy {
    /// The internal invariant of an enemy: its parts are well formed, the
    /// reload accumulator never exceeds its cooldown, and the score value
    /// per hit is bounded.
    pub open spec fn wf(&self) -> bool {
        &&& self.sprite_data.wf()
        &&& self.current_weapon.wf()
        &&& valid_direction(self.fire_direction)
        &&& self.tick_elapsed_ms <= self.cooldown_tick_ms
        &&& self.cooldown_tick_ms <= 86_400_000
        &&& self.points_per_hits <= MAX_POINTS_PER_HITS
        &&& self.health > i32::MIN
    }

    /// Returns a new enemy with the default enemy weapon, full health, and
    /// the given movement direction, initial position, fire direction and
    /// score value per hit.
    pub fn new_with_fire_direction(
        speed_to_set: i64,
        direction_to_set: (i64, i64),
        initial_pos: (i64, i64),
        fire_direction: (i64, i64),
        points: u32,
    ) -> (r: Ennemy)
        requires
            0 <= speed_to_set <= MAX_SPEED,
            valid_direction(direction_to_set),
            valid_direction(fire_direction),
            in_coord_range(initial_pos),
            points <= MAX_POINTS_PER_HITS,
        ensures
            r.sprite_data == (MoveableSprite {
                speed: speed_to_set,
                direction: direction_to_set,
                initial_position: initial_pos,
                current_position: initial_pos,
                previous_position: initial_pos,
                hitbox_size: (DEFAULT_ENNEMY_HITBOX_X, DEFAULT_ENNEMY_HITBOX_Y),
            }),
            r.health == INITIAL_HEALTH_POINTS,
            r.current_weapon == (Pistol {
                speed: ENNEMY_PROJECTILE_SPEED,
                current_amo: ENNEMY_AMO_IN_WEAPON,
                max_amo: ENNEMY_AMO_IN_WEAPON,
                limit_of_fire: ENNEMY_LIMIT_OF_FIRE,
                initial_fire_rate_ms: ENNEMY_FIRE_RATE_MS,
                current_fire_rate_timer_ms: 0,
            }),
            r.tick_elapsed_ms == 0,
            r.cooldown_tick_ms == ENNEMY_COOLDOWN_TICK_MS,
            r.fire_direction == fire_direction,
            r.points_per_hits == points,
            r.wf(),
    {
        Ennemy {
            sprite_data: MoveableSprite::new(
                speed_to_set,
                direction_to_set,
                initial_pos,
                (DEFAULT_ENNEMY_HITBOX_X, DEFAULT_ENNEMY_HITBOX_Y),
            ),
            health: INITIAL_HEALTH_POINTS,
            current_weapon: Pistol::new(
                ENNEMY_PROJECTILE_SPEED,
                ENNEMY_FIRE_RATE_MS,
                ENNEMY_AMO_IN_WEAPON,
                ENNEMY_LIMIT_OF_FIRE,
            ),
            tick_elapsed_ms: 0,
            cooldown_tick_ms: ENNEMY_COOLDOWN_TICK_MS,
            fire_direction,
            points_per_hits: points,
        }
    }

    /// Returns a new enemy whose fire direction is its movement direction.
    pub fn new(
        speed_to_set: i64,
        direction_to_set: (i64, i64),
        initial_pos: (i64, i64),
        points: u32,
    ) -> (r: Ennemy)
        requires
            0 <= speed_to_set <= MAX_SPEED,
            valid_direction(direction_to_set),
            in_coord_range(initial_pos),
            points <= MAX_POINTS_PER_HITS,
        ensures
            r.sprite_data == (MoveableSprite {
                speed: speed_to_set,
                direction: direction_to_set,
                initial_position: initial_pos,
                current_position: initial_pos,
                previous_position: initial_pos,
                hitbox_size: (DEFAULT_ENNEMY_HITBOX_X, DEFAULT_ENNEMY_HITBOX_Y),
            }),
            r.health == INITIAL_HEALTH_POINTS,
            r.current_weapon == (Pistol {
                speed: ENNEMY_PROJECTILE_SPEED,
                current_amo: ENNEMY_AMO_IN_WEAPON,
                max_amo: ENNEMY_AMO_IN_WEAPON,
                limit_of_fire: ENNEMY_LIMIT_OF_FIRE,
                initial_fire_rate_ms: ENNEMY_FIRE_RATE_MS,
                current_fire_rate_timer_ms: 0,
            }),
            r.tick_elapsed_ms == 0,
            r.cooldown_tick_ms == ENNEMY_COOLDOWN_TICK_MS,
            r.fire_direction == direction_to_set,
            r.points_per_hits == points,
            r.wf(),
    {
        Ennemy::new_with_fire_direction(
            speed_to_set,
            direction_to_set,
            initial_pos,
            direction_to_set,
            points,
        )
    }

    /// Reduce the enemy health by one.
    pub fn reduce_health(&mut self)
        requires
            old(self).health > i32::MIN,
        ensures
            *final(self) == (Ennemy { health: (old(self).health - 1) as i32, ..*old(self) }),
    {
        self.health = self.health - 1;
    }

    /// Return true if the enemy has less than one health point left.
    pub fn is_dead(&self) -> (r: bool)
        ensures
            r == (self.health < 1),
    {
        self.health < 1
    }

    /// The enemy state after an attack: the weapon has made a fire attempt,
    /// the reload accumulator has advanced, and a reload was forced if the
    /// accumulator passed the reload cooldown.
    pub open spec fn attack_next(self, elapsed_ms: int) -> Ennemy {
        let weapon = self.current_weapon.fire_next(elapsed_ms);
        let ticked = self.tick_elapsed_ms + elapsed_ms;
        if ticked > self.cooldown_tick_ms {
            Ennemy {
                current_weapon: Pistol { current_amo: weapon.max_amo, ..weapon },
                tick_elapsed_ms: 0,
                ..self
            }
        } else {
            Ennemy { current_weapon: weapon, tick_elapsed_ms: ticked as u64, ..self }
        }
    }

    /// The enemy tries to launch a projectile at its fixed fire direction;
    /// the shot happens only if the weapon holds ammunition and its cooldown
    /// has elapsed.  Independently, the reload accumulator advances by the
    /// elapsed time, and once it passes the reload cooldown the weapon is
    /// reloaded and the accumulator reset.
    pub fn launch_attack(&mut self, elapsed_ms: u32) -> (r: Option<Projectile>)
        requires
            old(self).wf(),
            elapsed_ms <= MAX_TICK_MS,
        ensures
            *final(self) == old(self).attack_next(elapsed_ms as int),
            final(self).wf(),
            old(self).current_weapon.fire_ready(elapsed_ms as int) ==> r == Some(
                old(self).current_weapon.fired_projectile(
                    old(self).fire_direction,
                    old(self).sprite_data.current_position,
                    true,
                ),
            ),
            !old(self).current_weapon.fire_ready(elapsed_ms as int) ==> r is None,
            r matches Some(p) ==> p.wf(),
    {
        let fire_direction = self.fire_direction;
        let position = self.sprite_data.get_position();
        let fired = self.current_weapon.fire_global(elapsed_ms, fire_direction, position, true);

        self.tick_elapsed_ms = self.tick_elapsed_ms + elapsed_ms as u64;

        if self.tick_elapsed_ms > self.cooldown_tick_ms {
            self.current_weapon.reload();
            self.tick_elapsed_ms = 0;
        }

        fired
    }

    /// Get the initial position where the enemy was created.
    pub fn get_initial_position(&self) -> (r: (i64, i64))
        ensures
            r == self.sprite_data.initial_position,
    {
        self.sprite_data.get_initial_position()
    }

    /// Get the score value of the enemy per hit.
    pub fn get_point_value_per_hits(&self) -> (r: u32)
        ensures
            r == self.points_per_hits,
    {
        self.points_per_hits
    }

    /// Get the score value awarded when the enemy dies: the per-hit value
    /// times the death bonus factor.
    pub fn get_point_value_on_death(&self) -> (r: u32)
        requires
            self.points_per_hits <= MAX_POINTS_PER_HITS,
        ensures
            r == self.points_per_hits * DEATH_POINT_COEF,
    {
        self.points_per_hits * DEATH_POINT_COEF
    }

    /// Get a shared view of the embedded moveable-entity state.
    pub fn get_moveable_interface(&self) -> (r: &MoveableSprite)
        ensures
            r == &self.sprite_data,
    {
        &self.sprite_data
    }

    /// Get an exclusive view of the embedded moveable-entity state.
    pub fn get_moveable_interface_mut(&mut self) -> (r: &mut MoveableSprite)
        ensures
            *r == old(self).sprite_data,
            *final(self) == (Ennemy { sprite_data: *final(r), ..*old(self) }),
    {
        &mut self.sprite_data
    }
}

} // verus!
