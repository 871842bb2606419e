//! The shared moveable-entity state: position, direction, speed and hitbox,
//! together with the single movement-integration step used by every actor.
//!
//! Positions and hitbox sizes are in world units; directions are in
//! hundredths of a unit ([`crate::math_and_generator::DIRECTION_UNIT`]);
//! speeds are in world units per second; elapsed time is in milliseconds.

pub mod ennemies;
pub mod player;
pub mod projectiles;

use vstd::prelude::*;
use crate::math_and_generator::abs_val;
use crate::math_and_generator::in_coord_range;
use crate::game_system::GAME_AREA_LIMIT_X;
use crate::game_system::GAME_AREA_LIMIT_Y;

verus! {

/// Largest direction-factor magnitude a moveable entity accepts.
pub const DIRECTION_LIMIT: i64 = 1_000;

/// Largest speed a moveable entity accepts, in world units per second.
pub const MAX_SPEED: i64 = 100_000;

/// Largest hitbox extent a moveable entity accepts, in world units.
pub const MAX_HITBOX: i64 = 10_000;

/// Largest elapsed time a single movement step accepts, in milliseconds.
pub const MAX_TICK_MS: u32 = 60_000;

/// Both components of a direction factor are at most `DIRECTION_LIMIT` in
/// magnitude.
pub open spec fn valid_direction(d: (i64, i64)) -> bool {
    abs_val(d.0 as int) <= DIRECTION_LIMIT && abs_val(d.1 as int) <= DIRECTION_LIMIT
}

/// Both extents of a hitbox are non-negative and at most `MAX_HITBOX`.
pub open spec fn valid_hitbox(h: (i64, i64)) -> bool {
    0 <= h.0 <= MAX_HITBOX && 0 <= h.1 <= MAX_HITBOX
}

/// `v` forced into the interval `[lo, hi]`.
pub open spec fn clamp_to(v: int, lo: int, hi: int) -> int {
    if v < lo {
        lo
    } else if v > hi {
        hi
    } else {
        v
    }
}

/// The movement-integration step along one axis: elapsed milliseconds times
/// a direction factor in hundredths of a unit times a speed in units per
/// second give world units after dividing by the two scales.  The division
/// truncates the magnitude, so the step of a negated direction is the
/// negated step.
pub open spec fn scaled_step(elapsed_ms: int, dir: int, speed: int) -> int {
    if dir >= 0 {
        (elapsed_ms * dir * speed) / 100_000
    } else {
        -((elapsed_ms * (-dir) * speed) / 100_000)
    }
}

/// A sprite which is able to move.
pub struct MoveableSprite {
    /// Speed in world units per second.
    pub speed: i64,
    /// Direction factor, in hundredths of a unit per axis.
    pub direction: (i64, i64),
    /// Position at construction; never changed afterwards.
    pub initial_position: (i64, i64),
    /// Current position in world units.
    pub current_position: (i64, i64),
    /// Position at the last movement check, used to gate sprite animation.
    pub previous_position: (i64, i64),
    /// Full hitbox extent per axis, in world units.
    pub hitbox_size: (i64, i64),
}

impl MoveableSprite {
    /// The internal invariant every moveable sprite keeps: bounded speed,
    /// direction, positions and hitbox.
    pub open spec fn wf(&self) -> bool {
        &&& 0 <= self.speed <= MAX_SPEED
        &&& valid_direction(self.direction)
        &&& in_coord_range(self.initial_position)
        &&& in_coord_range(self.current_position)
        &&& in_coord_range(self.previous_position)
        &&& valid_hitbox(self.hitbox_size)
    }

    /// The state after one movement-integration step: the position advances
    /// by the scaled step on each axis, is clamped to the playfield, and the
    /// supplied direction is stored.
    pub open spec fn move_spec(self, elapsed_ms: int, direction: (i64, i64)) -> MoveableSprite {
        MoveableSprite {
            speed: self.speed,
            direction,
            initial_position: self.initial_position,
            current_position: (
                clamp_to(
                    self.current_position.0 + scaled_step(elapsed_ms, direction.0 as int, self.speed as int),
                    -GAME_AREA_LIMIT_X as int,
                    GAME_AREA_LIMIT_X as int,
                ) as i64,
                clamp_to(
                    self.current_position.1 + scaled_step(elapsed_ms, direction.1 as int, self.speed as int),
                    -GAME_AREA_LIMIT_Y as int,
                    GAME_AREA_LIMIT_Y as int,
                ) as i64,
            ),
            previous_position: self.previous_position,
            hitbox_size: self.hitbox_size,
        }
    }

    /// Returns a new sprite with the given speed, direction, position and
    /// hitbox; the initial, current and previous positions all start at the
    /// given position.
    pub fn new(
        speed_to_set: i64,
        direction_to_set: (i64, i64),
        current_position_to_set: (i64, i64),
        hitbox_size: (i64, i64),
    ) -> (r: MoveableSprite)
        requires
            0 <= speed_to_set <= MAX_SPEED,
            valid_direction(direction_to_set),
            in_coord_range(current_position_to_set),
            valid_hitbox(hitbox_size),
        ensures
            r == (MoveableSprite {
                speed: speed_to_set,
                direction: direction_to_set,
                initial_position: current_position_to_set,
                current_position: current_position_to_set,
                previous_position: current_position_to_set,
                hitbox_size,
            }),
            r.wf(),
    {
        MoveableSprite {
            speed: speed_to_set,
            direction: direction_to_set,
            initial_position: current_position_to_set,
            current_position: current_position_to_set,
            previous_position: current_position_to_set,
            hitbox_size,
        }
    }

    /// Get the current move speed of the sprite.
    pub fn get_speed(&self) -> (r: i64)
        ensures
            r == self.speed,
    {
        self.speed
    }

    /// Get the current direction of the sprite.
    pub fn get_direction(&self) -> (r: (i64, i64))
        ensures
            r == self.direction,
    {
        self.direction
    }

    /// Set the new direction of the sprite.
    pub fn set_new_direction(&mut self, direction: (i64, i64))
        requires
            valid_direction(direction),
        ensures
            *final(self) == (MoveableSprite { direction, ..*old(self) }),
    {
        self.direction = direction;
    }

    /// Get the current position of the sprite.
    pub fn get_position(&self) -> (r: (i64, i64))
        ensures
            r == self.current_position,
    {
        self.current_position
    }

    /// Set the new position of the sprite.
    pub fn set_new_position(&mut self, position: (i64, i64))
        requires
            in_coord_range(position),
        ensures
            *final(self) == (MoveableSprite { current_position: position, ..*old(self) }),
    {
        self.current_position = position;
    }

    /// Get the position where the sprite was created.
    pub fn get_initial_position(&self) -> (r: (i64, i64))
        ensures
            r == self.initial_position,
    {
        self.initial_position
    }

    /// Get the hitbox size of the sprite in format `(x, y)`.
    pub fn get_hitbox_size(&self) -> (r: (i64, i64))
        ensures
            r == self.hitbox_size,
    {
        self.hitbox_size
    }

    /// Whether a movement check on this state reports a movement.
    pub open spec fn moved_check_result(self) -> bool {
        self.previous_position != self.current_position
    }

    /// The state after a movement check: the current position becomes the
    /// recorded one.
    pub open spec fn moved_check_next(self) -> MoveableSprite {
        MoveableSprite { previous_position: self.current_position, ..self }
    }

    /// Check if the sprite moved since the last call: compares the current
    /// position against the position recorded at the last check, records the
    /// current position, and returns whether they differed.  Calling it twice
    /// without movement in between returns `false` the second time.
    pub fn is_sprite_moved_after_last_call(&mut self) -> (moved: bool)
        ensures
            moved == old(self).moved_check_result(),
            *final(self) == old(self).moved_check_next(),
    {
        if self.previous_position.0 != self.current_position.0
            || self.previous_position.1 != self.current_position.1 {
            self.previous_position = self.current_position;
            return true;
        }
        proof {
            assert(self.previous_position == self.current_position);
        }
        false
    }

    /// Move the sprite: integrate the elapsed time with the supplied
    /// direction and the stored speed, clamp to the playfield, and store the
    /// supplied direction.
    pub fn move_sprite(&mut self, elapsed_ms: u32, direction: (i64, i64))
        requires
            old(self).wf(),
            valid_direction(direction),
            elapsed_ms <= MAX_TICK_MS,
        ensures
            *final(self) == old(self).move_spec(elapsed_ms as int, direction),
            final(self).wf(),
    {
        let step_x = scaled_step_exec(elapsed_ms, direction.0, self.speed);
        let step_y = scaled_step_exec(elapsed_ms, direction.1, self.speed);
        let moved_x = position_to_axis_limit(self.current_position.0 + step_x, GAME_AREA_LIMIT_X);
        let moved_y = position_to_axis_limit(self.current_position.1 + step_y, GAME_AREA_LIMIT_Y);
        self.current_position = (moved_x, moved_y);
        self.direction = direction;
    }
}

/// The movement-integration step along one axis; see [`scaled_step`].
fn scaled_step_exec(elapsed_ms: u32, dir: i64, speed: i64) -> (r: i64)
    requires
        elapsed_ms <= MAX_TICK_MS,
        abs_val(dir as int) <= DIRECTION_LIMIT,
        0 <= speed <= MAX_SPEED,
    ensures
        r == scaled_step(elapsed_ms as int, dir as int, speed as int),
        abs_val(r as int) <= 60_000_000,
{
    let dir_abs: u64 = if dir < 0 { (-dir) as u64 } else { dir as u64 };
    proof {
        assert(0 <= (elapsed_ms as int) * (dir_abs as int) <= 60_000_000) by (nonlinear_arith)
            requires
                0 <= elapsed_ms as int <= 60_000,
                0 <= dir_abs as int <= 1_000;
        assert((elapsed_ms as int) * (dir_abs as int) * (speed as int) <= 6_000_000_000_000)
            by (nonlinear_arith)
            requires
                0 <= (elapsed_ms as int) * (dir_abs as int) <= 60_000_000,
                0 <= speed as int <= 100_000;
    }
    let prod: u64 = (elapsed_ms as u64) * dir_abs * (speed as u64);
    let mag: u64 = prod / 100_000;
    let mag_i: i64 = mag as i64;
    if dir < 0 {
        -mag_i
    } else {
        mag_i
    }
}

/// Force one axis of a position into `[-limit, limit]`.
fn position_to_axis_limit(v: i64, limit: i64) -> (r: i64)
    requires
        0 <= limit,
        v > i64::MIN,
    ensures
        r == clamp_to(v as int, -limit as int, limit as int),
{
    let low = -limit;
    if v < low {
        low
    } else if v > limit {
        limit
    } else {
        v
    }
}

/// Force a position into the game area limits.
pub fn position_to_game_area_limit(position: (i64, i64)) -> (r: (i64, i64))
    requires
        position.0 > i64::MIN,
        position.1 > i64::MIN,
    ensures
        r.0 == clamp_to(position.0 as int, -GAME_AREA_LIMIT_X as int, GAME_AREA_LIMIT_X as int),
        r.1 == clamp_to(position.1 as int, -GAME_AREA_LIMIT_Y as int, GAME_AREA_LIMIT_Y as int),
        in_coord_range(r),
{
    (
        position_to_axis_limit(position.0, GAME_AREA_LIMIT_X),
        position_to_axis_limit(position.1, GAME_AREA_LIMIT_Y),
    )
}

/// A movement that starts on the playfield boundary and points outwards on
/// both axes leaves the position unchanged: the step is clamped back to the
/// boundary.
pub proof fn lemma_move_clamps_to_game_area(s: MoveableSprite, elapsed_ms: int, direction: (i64, i64))
    requires
        s.wf(),
        0 <= elapsed_ms,
        s.current_position == (GAME_AREA_LIMIT_X, GAME_AREA_LIMIT_Y),
        direction.0 >= 0,
        direction.1 >= 0,
    ensures
        s.move_spec(elapsed_ms, direction).current_position == s.current_position,
{
    assert(elapsed_ms * direction.0 * s.speed >= 0) by (nonlinear_arith)
        requires 0 <= elapsed_ms, 0 <= direction.0, 0 <= s.speed;
    assert(elapsed_ms * direction.1 * s.speed >= 0) by (nonlinear_arith)
        requires 0 <= elapsed_ms, 0 <= direction.1, 0 <= s.speed;
    assert(scaled_step(elapsed_ms, direction.0 as int, s.speed as int) >= 0);
    assert(scaled_step(elapsed_ms, direction.1 as int, s.speed as int) >= 0);
}

/// A movement check reports a movement at most once: whatever it returned,
/// a second check with no movement in between reports no movement.
pub proof fn lemma_moved_check_reports_once(s: MoveableSprite)
    ensures
        !s.moved_check_next().moved_check_result(),
{
}

} // verus!
