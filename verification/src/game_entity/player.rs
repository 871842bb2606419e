//! The main character entity, controllable by the player: a moveable entity
//! combined with a large-magazine, fast fire-rate pistol.

use vstd::prelude::*;
use crate::game_entity::MoveableSprite;
use crate::game_entity::MAX_SPEED;
use crate::game_entity::MAX_TICK_MS;
use crate::game_entity::valid_direction;
use crate::game_entity::projectiles::Projectile;
use crate::math_and_generator::in_coord_range;
use crate::weapons::Pistol;

verus! {

/// Speed of the projectiles of the player weapon, in world units per second.
pub const PLAYER_PROJECTILE_SPEED: i64 = 700;

/// Rounds a full reload of the player weapon restores.
pub const PLAYER_AMO_IN_WEAPON: u32 = 800;

/// Distance limit of the projectiles of the player weapon.
pub const PLAYER_LIMIT_OF_FIRE: u32 = 700;

/// Fire-rate cooldown of the player weapon, in milliseconds.
pub const PLAYER_FIRE_RATE_MS: u32 = 180;

/// Full hitbox extent of the player, per axis.
pub const DEFAULT_PLAYER_HITBOX_X: i64 = 35;

/// Full hitbox extent of the player along the y axis.
pub const DEFAULT_PLAYER_HITBOX_Y: i64 = 40;

/// A player object contains all the information dedicated to the player.
pub struct Player {
    /// The embedded moveable-entity state.
    pub sprite_data: MoveableSprite,
    /// The weapon the player fires with.
    pub current_weapon: Pistol,
}

impl Player {
    /// The internal invariant of a player: its moveable state and weapon are
    /// well formed.
    pub open spec fn wf(&self) -> bool {
        self.sprite_data.wf() && self.current_weapon.wf()
    }

    /// Returns a new player at the given position, with the default player
    /// hitbox and the default player pistol.
    pub fn new(speed_to_set: i64, direction_to_set: (i64, i64), initial_pos: (i64, i64)) -> (r:
        Player)
        requires
            0 <= speed_to_set <= MAX_SPEED,
            valid_direction(direction_to_set),
            in_coord_range(initial_pos),
        ensures
            r.sprite_data == (MoveableSprite {
                speed: speed_to_set,
                direction: direction_to_set,
                initial_position: initial_pos,
                current_position: initial_pos,
                previous_position: initial_pos,
                hitbox_size: (DEFAULT_PLAYER_HITBOX_X, DEFAULT_PLAYER_HITBOX_Y),
            }),
            r.current_weapon == (Pistol {
                speed: PLAYER_PROJECTILE_SPEED,
                current_amo: PLAYER_AMO_IN_WEAPON,
                max_amo: PLAYER_AMO_IN_WEAPON,
                limit_of_fire: PLAYER_LIMIT_OF_FIRE,
                initial_fire_rate_ms: PLAYER_FIRE_RATE_MS,
                current_fire_rate_timer_ms: 0,
            }),
            r.wf(),
    {
        Player {
            sprite_data: MoveableSprite::new(
                speed_to_set,
                direction_to_set,
                initial_pos,
                (DEFAULT_PLAYER_HITBOX_X, DEFAULT_PLAYER_HITBOX_Y),
            ),
            current_weapon: Pistol::new(
                PLAYER_PROJECTILE_SPEED,
                PLAYER_FIRE_RATE_MS,
                PLAYER_AMO_IN_WEAPON,
                PLAYER_LIMIT_OF_FIRE,
            ),
        }
    }

    /// Get the current move speed of the player.
    pub fn get_speed(&self) -> (r: i64)
        ensures
            r == self.sprite_data.speed,
    {
        self.sprite_data.get_speed()
    }

    /// Get the current direction of the player.
    pub fn get_direction(&self) -> (r: (i64, i64))
        ensures
            r == self.sprite_data.direction,
    {
        self.sprite_data.get_direction()
    }

    /// Set the new direction of the player.
    pub fn set_new_direction(&mut self, direction: (i64, i64))
        requires
            valid_direction(direction),
        ensures
            final(self).sprite_data == (MoveableSprite { direction, ..old(self).sprite_data }),
            final(self).current_weapon == old(self).current_weapon,
    {
        self.sprite_data.set_new_direction(direction);
    }

    /// Get the current position of the player.
    pub fn get_position(&self) -> (r: (i64, i64))
        ensures
            r == self.sprite_data.current_position,
    {
        self.sprite_data.get_position()
    }

    /// Set the new position of the player.
    pub fn set_new_position(&mut self, position: (i64, i64))
        requires
            in_coord_range(position),
        ensures
            final(self).sprite_data == (MoveableSprite {
                current_position: position,
                ..old(self).sprite_data
            }),
            final(self).current_weapon == old(self).current_weapon,
    {
        self.sprite_data.set_new_position(position);
    }

    /// Get the hitbox size of the player in format `(x, y)`.
    pub fn get_hitbox_size(&self) -> (r: (i64, i64))
        ensures
            r == self.sprite_data.hitbox_size,
    {
        self.sprite_data.get_hitbox_size()
    }

    /// Get a shared view of the embedded moveable-entity state.
    pub fn get_moveable_interface(&self) -> (r: &MoveableSprite)
        ensures
            r == &self.sprite_data,
    {
        &self.sprite_data
    }

    /// Get an exclusive view of the embedded moveable-entity state.
    pub fn get_moveable_interface_mut(&mut self) -> (r: &mut MoveableSprite)
        ensures
            *r == old(self).sprite_data,
            final(self).sprite_data == *final(r),
            final(self).current_weapon == old(self).current_weapon,
    {
        &mut self.sprite_data
    }

    /// Launch a projectile with the player weapon, in the direction the
    /// player faces, from the player position.
    pub fn fire(&mut self, elapsed_ms: u32) -> (r: Option<Projectile>)
        requires
            old(self).wf(),
            elapsed_ms <= MAX_TICK_MS,
        ensures
            final(self).sprite_data == old(self).sprite_data,
            final(self).current_weapon == old(self).current_weapon.fire_next(elapsed_ms as int),
            final(self).wf(),
            old(self).current_weapon.fire_ready(elapsed_ms as int) ==> r == Some(
                old(self).current_weapon.fired_projectile(
                    old(self).sprite_data.direction,
                    old(self).sprite_data.current_position,
                    false,
                ),
            ),
            !old(self).current_weapon.fire_ready(elapsed_ms as int) ==> r is None,
            r matches Some(p) ==> p.wf(),
    {
        let direction = self.sprite_data.get_direction();
        let position = self.sprite_data.get_position();
        self.current_weapon.fire_global(elapsed_ms, direction, position, false)
    }

    /// Reload the player weapon.
    pub fn reload_weapon(&mut self)
        ensures
            final(self).sprite_data == old(self).sprite_data,
            final(self).current_weapon == (Pistol {
                current_amo: old(self).current_weapon.max_amo,
                ..old(self).current_weapon
            }),
    {
        self.current_weapon.reload();
    }
}

} // verus!
