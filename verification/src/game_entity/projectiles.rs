//! Projectile entities: independent moveable entities with a range limit and
//! a flag telling whether an enemy fired them.

use vstd::prelude::*;
use crate::game_entity::MoveableSprite;
use crate::game_entity::MAX_SPEED;
use crate::game_entity::valid_direction;
use crate::math_and_generator::in_coord_range;
use crate::math_and_generator::cartesian_distance;
use crate::math_and_generator::calculate_cartesian_distance;

verus! {

/// Default full hitbox extent of a projectile, per axis.
pub const DEFAULT_PROJECTILE_HITBOX: i64 = 10;

/// A projectile object contains all the information dedicated to a single
/// projectile.
pub struct Projectile {
    /// The embedded moveable-entity state.
    pub sprite_data: MoveableSprite,
    /// Distance limit: the projectile expires once the cartesian distance
    /// from its initial position exceeds this.
    pub projectile_limit_distance: u32,
    /// True if the projectile comes from an enemy; else it comes from the
    /// player.
    pub is_from_ennemy: bool,
}

impl Projectile {
    /// The internal invariant of a projectile: its moveable state is
    /// well formed.
    pub open spec fn wf(&self) -> bool {
        self.sprite_data.wf()
    }

    /// Whether the projectile has travelled beyond its distance limit.
    pub open spec fn out_of_distance(&self) -> bool {
        cartesian_distance(self.sprite_data.initial_position, self.sprite_data.current_position)
            > self.projectile_limit_distance
    }

    /// Returns a new projectile with the given speed, direction, position,
    /// distance limit and origin flag; its hitbox is the default projectile
    /// hitbox.
    pub fn new(
        speed_to_set: i64,
        direction_to_set: (i64, i64),
        current_position_to_set: (i64, i64),
        limit_of_fire: u32,
        is_from_ennemy: bool,
    ) -> (r: Projectile)
        requires
            0 <= speed_to_set <= MAX_SPEED,
            valid_direction(direction_to_set),
            in_coord_range(current_position_to_set),
        ensures
            r.sprite_data.speed == speed_to_set,
            r.sprite_data.direction == direction_to_set,
            r.sprite_data.initial_position == current_position_to_set,
            r.sprite_data.current_position == current_position_to_set,
            r.sprite_data.previous_position == current_position_to_set,
            r.sprite_data.hitbox_size == (DEFAULT_PROJECTILE_HITBOX, DEFAULT_PROJECTILE_HITBOX),
            r.projectile_limit_distance == limit_of_fire,
            r.is_from_ennemy == is_from_ennemy,
            r.wf(),
    {
        Projectile {
            sprite_data: MoveableSprite::new(
                speed_to_set,
                direction_to_set,
                current_position_to_set,
                (DEFAULT_PROJECTILE_HITBOX, DEFAULT_PROJECTILE_HITBOX),
            ),
            projectile_limit_distance: limit_of_fire,
            is_from_ennemy,
        }
    }

    /// Check if the projectile travelled further from its initial position
    /// than its distance limit.
    pub fn is_out_of_distance(&self) -> (r: bool)
        requires
            self.wf(),
        ensures
            r == self.out_of_distance(),
    {
        let distance_walked = calculate_cartesian_distance(
            self.sprite_data.initial_position,
            self.sprite_data.current_position,
        );
        distance_walked > self.projectile_limit_distance as i64
    }

    /// True if the projectile comes from an enemy; else it comes from the
    /// player.
    pub fn is_coming_from_ennemy(&self) -> (r: bool)
        ensures
            r == self.is_from_ennemy,
    {
        self.is_from_ennemy
    }

    /// Get a shared view of the embedded moveable-entity state.
    pub fn get_moveable_interface(&self) -> (r: &MoveableSprite)
        ensures
            r == &self.sprite_data,
    {
        &self.sprite_data
    }

    /// Get an exclusive view of the embedded moveable-entity state.
    pub fn get_moveable_interface_mut(&mut self) -> (r: &mut MoveableSprite)
        ensures
            *r == old(self).sprite_data,
            final(self).sprite_data == *final(r),
            final(self).projectile_limit_distance == old(self).projectile_limit_distance,
            final(self).is_from_ennemy == old(self).is_from_ennemy,
    {
        &mut self.sprite_data
    }
}

} // verus!
