//! Sprite-animation frame selection: mapping a direction factor to the
//! texture row of the sprite sheet, and advancing the frame column when the
//! entity has moved since the last animation check.

use vstd::prelude::*;
use crate::game_entity::MoveableSprite;
use crate::game_entity::valid_direction;
use crate::math_and_generator::abs_val;

verus! {

/// Number of animation columns per sprite template.
pub const COLS_PER_SPRITES: usize = 8;

/// Current facing of an entity, selecting a texture row: up, left, right
/// or down.
#[derive(Clone, Copy, Debug, PartialEq, Eq, Structural)]
pub enum TexturePositionEnum {
    /// Facing the bottom of the playfield.
    Down,
    /// Facing the left edge of the playfield.
    Left,
    /// Facing the right edge of the playfield.
    Right,
    /// Facing the top of the playfield.
    Up,
}

/// The facing a direction factor selects: on a tie of magnitudes the y
/// axis decides between up and down; otherwise the dominant axis and the
/// sign of the difference decide.
pub open spec fn texture_position_from_coeff_factor(coeff_factor: (i64, i64))
    -> TexturePositionEnum {
    let magnitude_x = abs_val(coeff_factor.0 as int);
    let magnitude_y = abs_val(coeff_factor.1 as int);
    if magnitude_x == magnitude_y {
        if coeff_factor.1 > 0 {
            TexturePositionEnum::Up
        } else {
            TexturePositionEnum::Down
        }
    } else {
        let wider = magnitude_x > magnitude_y;
        let leaning = coeff_factor.0 - coeff_factor.1 >= 0;
        if wider && leaning {
            TexturePositionEnum::Right
        } else if wider && !leaning {
            TexturePositionEnum::Left
        } else if !wider && leaning {
            TexturePositionEnum::Down
        } else {
            TexturePositionEnum::Up
        }
    }
}

/// The texture row a facing selects in the sprite sheet.
pub open spec fn texture_row(position: TexturePositionEnum) -> int {
    match position {
        TexturePositionEnum::Down => 0,
        TexturePositionEnum::Left => 1,
        TexturePositionEnum::Right => 2,
        TexturePositionEnum::Up => 3,
    }
}

/// Convert a direction factor to the facing of the sprite.
pub fn generate_texture_position_from_coeff_factor(coeff_factor: (i64, i64)) -> (r:
    TexturePositionEnum)
    requires
        valid_direction(coeff_factor),
    ensures
        r == texture_position_from_coeff_factor(coeff_factor),
{
    let (coeff_factor_x, coeff_factor_y) = coeff_factor;
    let magnitude_x = if coeff_factor_x < 0 { -coeff_factor_x } else { coeff_factor_x };
    let magnitude_y = if coeff_factor_y < 0 { -coeff_factor_y } else { coeff_factor_y };

    if magnitude_x == magnitude_y {
        // Tie of magnitudes: the y axis decides.
        if coeff_factor_y > 0 {
            TexturePositionEnum::Up
        } else {
            TexturePositionEnum::Down
        }
    } else {
        let wider = magnitude_x > magnitude_y;
        let leaning = coeff_factor_x - coeff_factor_y >= 0;
        if wider && leaning {
            TexturePositionEnum::Right
        } else if wider && !leaning {
            TexturePositionEnum::Left
        } else if !wider && leaning {
            TexturePositionEnum::Down
        } else {
            TexturePositionEnum::Up
        }
    }
}

/// Advance the animation of a moveable entity by one check: when the
/// entity has moved since the last check, the next frame index is the next
/// column of the texture row its direction selects; otherwise the frame is
/// left alone.
pub fn animate_sprite(entity: &mut MoveableSprite, current_index: usize) -> (next_index: Option<
    usize,
>)
    requires
        old(entity).wf(),
        current_index < usize::MAX,
    ensures
        *final(entity) == old(entity).moved_check_next(),
        old(entity).moved_check_result() ==> next_index == Some(
            (((current_index + 1) as int % COLS_PER_SPRITES as int) + COLS_PER_SPRITES as int
                * texture_row(texture_position_from_coeff_factor(old(entity).direction))) as usize,
        ),
        !old(entity).moved_check_result() ==> next_index is None,
{
    if entity.is_sprite_moved_after_last_call() {
        let coef_val: usize =
            match generate_texture_position_from_coeff_factor(entity.get_direction()) {
            TexturePositionEnum::Down => 0 * COLS_PER_SPRITES,
            TexturePositionEnum::Left => 1 * COLS_PER_SPRITES,
            TexturePositionEnum::Right => 2 * COLS_PER_SPRITES,
            TexturePositionEnum::Up => 3 * COLS_PER_SPRITES,
        };
        let calculated_index = ((current_index + 1) % COLS_PER_SPRITES) + coef_val;
        Some(calculated_index)
    } else {
        None
    }
}

} // verus!
