//! The weapon model: ammunition, a fire-rate cooldown, and projectile
//! creation.  A pistol is the single weapon archetype; firing is a silent
//! no-op while the ammunition is exhausted or the cooldown has not elapsed.

use vstd::prelude::*;
use crate::game_entity::MoveableSprite;
use crate::game_entity::MAX_SPEED;
use crate::game_entity::MAX_TICK_MS;
use crate::game_entity::valid_direction;
use crate::game_entity::projectiles::DEFAULT_PROJECTILE_HITBOX;
use crate::game_entity::projectiles::Projectile;
use crate::math_and_generator::in_coord_range;

verus! {

/// Largest fire-rate cooldown a weapon accepts, in milliseconds.
pub const MAX_FIRE_RATE_MS: u32 = 86_400_000;

/// A pistol is a single-fire weapon.
pub struct Pistol {
    /// Speed given to the projectiles it fires, in world units per second.
    pub speed: i64,
    /// Number of rounds currently in the weapon.
    pub current_amo: u32,
    /// Number of rounds a full reload restores.
    pub max_amo: u32,
    /// Distance limit given to the projectiles it fires.
    pub limit_of_fire: u32,
    /// The fire-rate cooldown, in milliseconds.
    pub initial_fire_rate_ms: u32,
    /// Remaining cooldown before the next shot, in milliseconds.
    pub current_fire_rate_timer_ms: i64,
}

impl Pistol {
    /// The internal invariant of a pistol: bounded speed and cooldown, no
    /// more rounds than a full reload restores.
    pub open spec fn wf(&self) -> bool {
        &&& 0 <= self.speed <= MAX_SPEED
        &&& self.current_amo <= self.max_amo
        &&& self.initial_fire_rate_ms <= MAX_FIRE_RATE_MS
        &&& 0 <= self.current_fire_rate_timer_ms <= self.initial_fire_rate_ms
    }

    /// Whether a fire attempt with this much elapsed time succeeds: there is
    /// ammunition left and the cooldown has run out.
    pub open spec fn fire_ready(self, elapsed_ms: int) -> bool {
        self.current_amo > 0 && self.current_fire_rate_timer_ms - elapsed_ms < 0
    }

    /// The weapon state after a fire attempt.  Without ammunition nothing
    /// changes (the cooldown is not even consulted); with ammunition the
    /// cooldown advances, and a successful shot consumes one round and
    /// resets the cooldown.
    pub open spec fn fire_next(self, elapsed_ms: int) -> Pistol {
        if self.current_amo == 0 {
            self
        } else if self.current_fire_rate_timer_ms - elapsed_ms < 0 {
            Pistol {
                current_amo: (self.current_amo - 1) as u32,
                current_fire_rate_timer_ms: self.initial_fire_rate_ms as i64,
                ..self
            }
        } else {
            Pistol {
                current_fire_rate_timer_ms: (self.current_fire_rate_timer_ms - elapsed_ms) as i64,
                ..self
            }
        }
    }

    /// The projectile a successful shot creates.
    pub open spec fn fired_projectile(
        self,
        direction: (i64, i64),
        initial_pos: (i64, i64),
        is_ennemy: bool,
    ) -> Projectile {
        Projectile {
            sprite_data: MoveableSprite {
                speed: self.speed,
                direction,
                initial_position: initial_pos,
                current_position: initial_pos,
                previous_position: initial_pos,
                hitbox_size: (DEFAULT_PROJECTILE_HITBOX, DEFAULT_PROJECTILE_HITBOX),
            },
            projectile_limit_distance: self.limit_of_fire,
            is_from_ennemy: is_ennemy,
        }
    }

    /// Returns a new pistol with a full magazine and an expired cooldown.
    pub fn new(projectile_speed: i64, fire_rate_ms: u32, amo: u32, fire_distance: u32) -> (r: Pistol)
        requires
            0 <= projectile_speed <= MAX_SPEED,
            fire_rate_ms <= MAX_FIRE_RATE_MS,
        ensures
            r == (Pistol {
                speed: projectile_speed,
                current_amo: amo,
                max_amo: amo,
                limit_of_fire: fire_distance,
                initial_fire_rate_ms: fire_rate_ms,
                current_fire_rate_timer_ms: 0,
            }),
            r.wf(),
    {
        Pistol {
            speed: projectile_speed,
            current_amo: amo,
            max_amo: amo,
            limit_of_fire: fire_distance,
            initial_fire_rate_ms: fire_rate_ms,
            current_fire_rate_timer_ms: 0,
        }
    }

    /// Reload the weapon: restore a full magazine.
    pub fn reload(&mut self)
        ensures
            *final(self) == (Pistol { current_amo: old(self).max_amo, ..*old(self) }),
    {
        self.current_amo = self.max_amo;
    }

    /// Get the number of rounds left in the weapon.
    pub fn get_amo(&self) -> (r: u32)
        ensures
            r == self.current_amo,
    {
        self.current_amo
    }

    /// Remove one round from the weapon.
    pub fn reduce_amo(&mut self)
        requires
            old(self).current_amo >= 1,
        ensures
            *final(self) == (Pistol { current_amo: (old(self).current_amo - 1) as u32, ..*old(self) }),
    {
        self.current_amo = self.current_amo - 1;
    }

    /// Advance the fire-rate cooldown by the elapsed time; when it runs out,
    /// reset it and report that the weapon may fire.
    pub fn is_ready_to_fire(&mut self, elapsed_ms: u32) -> (ready: bool)
        requires
            old(self).wf(),
            elapsed_ms <= MAX_TICK_MS,
        ensures
            ready == (old(self).current_fire_rate_timer_ms - elapsed_ms < 0),
            ready ==> *final(self) == (Pistol {
                current_fire_rate_timer_ms: old(self).initial_fire_rate_ms as i64,
                ..*old(self)
            }),
            !ready ==> *final(self) == (Pistol {
                current_fire_rate_timer_ms:
                    (old(self).current_fire_rate_timer_ms - elapsed_ms) as i64,
                ..*old(self)
            }),
            final(self).wf(),
    {
        self.current_fire_rate_timer_ms = self.current_fire_rate_timer_ms - elapsed_ms as i64;

        if self.current_fire_rate_timer_ms < 0 {
            self.current_fire_rate_timer_ms = self.initial_fire_rate_ms as i64;
            return true;
        }

        false
    }

    /// Create a new projectile at the given position and direction, with
    /// this weapon's projectile speed and distance limit.
    pub fn create_projectile(
        &self,
        direction_to_set: (i64, i64),
        initial_position_to_set: (i64, i64),
        is_ennemy: bool,
    ) -> (r: Projectile)
        requires
            self.wf(),
            valid_direction(direction_to_set),
            in_coord_range(initial_position_to_set),
        ensures
            r == self.fired_projectile(direction_to_set, initial_position_to_set, is_ennemy),
            r.wf(),
    {
        Projectile::new(
            self.speed,
            direction_to_set,
            initial_position_to_set,
            self.limit_of_fire,
            is_ennemy,
        )
    }

    /// The generic fire command: if the weapon holds ammunition and its
    /// cooldown has elapsed, create a projectile, consume one round and
    /// reset the cooldown; otherwise change nothing but the cooldown and
    /// return no projectile.
    pub fn fire_global(
        &mut self,
        elapsed_ms: u32,
        direction: (i64, i64),
        initial_pos: (i64, i64),
        is_ennemy: bool,
    ) -> (r: Option<Projectile>)
        requires
            old(self).wf(),
            elapsed_ms <= MAX_TICK_MS,
            valid_direction(direction),
            in_coord_range(initial_pos),
        ensures
            *final(self) == old(self).fire_next(elapsed_ms as int),
            final(self).wf(),
            old(self).fire_ready(elapsed_ms as int) ==> r == Some(
                old(self).fired_projectile(direction, initial_pos, is_ennemy),
            ),
            !old(self).fire_ready(elapsed_ms as int) ==> r is None,
            r matches Some(p) ==> p.wf(),
    {
        if self.get_amo() > 0 && self.is_ready_to_fire(elapsed_ms) {
            let projectile = self.create_projectile(direction, initial_pos, is_ennemy);
            self.reduce_amo();
            Some(projectile)
        } else {
            None
        }
    }
}

} // verus!
