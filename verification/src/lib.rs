//! Gameplay simulation core of a small top-down arcade shooter.
//!
//! The playfield is a fixed axis-aligned rectangle; every actor (player,
//! enemy, projectile) carries the same moveable-entity state and is advanced
//! by one shared movement-integration step.  All quantities are integers:
//! positions and hitbox sizes are given in world units, directions are given
//! in hundredths of a unit (a component of 100 stands for a full unit), and
//! time is given in milliseconds.

pub mod game_entity;
pub mod game_system;
pub mod math_and_generator;
pub mod sprite_manager_system;
pub mod weapons;
