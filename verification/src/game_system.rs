//! Playfield constants and the per-frame decision helpers driven by the
//! host loop: the bounds check used before a movement, and the keyboard
//! policy of the player.

pub mod ennemy_spawn_ai_gameplay;
pub mod projectile_and_kill_gameplay;
pub mod scoreboard;

use vstd::prelude::*;
use crate::math_and_generator::abs_val;
use crate::math_and_generator::in_coord_range;
use crate::game_entity::MAX_TICK_MS;
use crate::game_entity::ennemies::DEATH_POINT_COEF;
use crate::game_entity::ennemies::Ennemy;
use crate::game_entity::ennemies::MAX_POINTS_PER_HITS;
use crate::game_entity::player::Player;
use crate::game_entity::projectiles::Projectile;
use crate::game_entity::valid_direction;
use crate::game_system::ennemy_spawn_ai_gameplay::ennemy_ai_system;
use crate::game_system::ennemy_spawn_ai_gameplay::fired_projectiles;
use crate::game_system::ennemy_spawn_ai_gameplay::lemma_fired_projectiles_len;
use crate::game_system::ennemy_spawn_ai_gameplay::stepped_ennemies;
use crate::game_system::ennemy_spawn_ai_gameplay::valid_spawned_ennemy;
use crate::game_system::ennemy_spawn_ai_gameplay::MAXIMUM_NUMBER_OF_ENNEMIES;
use crate::game_system::projectile_and_kill_gameplay::ennemies_wf;
use crate::game_system::projectile_and_kill_gameplay::lemma_surviving_projectiles_len;
use crate::game_system::projectile_and_kill_gameplay::projectile_collision_and_score_system;
use crate::game_system::projectile_and_kill_gameplay::projectile_movement_system;
use crate::game_system::projectile_and_kill_gameplay::projectiles_wf;
use crate::game_system::projectile_and_kill_gameplay::resolve_tick;
use crate::game_system::projectile_and_kill_gameplay::surviving_projectiles;
use crate::game_system::scoreboard::ScoreAndInfo;
use crate::weapons::Pistol;

verus! {

/// Half-extent of the playfield along the x axis: positions are clamped to
/// `[-GAME_AREA_LIMIT_X, GAME_AREA_LIMIT_X]`.
pub const GAME_AREA_LIMIT_X: i64 = 500;

/// Half-extent of the playfield along the y axis.
pub const GAME_AREA_LIMIT_Y: i64 = 300;

/// Whether one more step of one direction factor from `position` would leave
/// the playfield.  Positions are in world units and direction factors in
/// hundredths of a unit, so the comparison is made at the direction scale.
pub open spec fn next_movement_out_of_game_area(
    position: (i64, i64),
    direction_factor: (i64, i64),
) -> bool {
    abs_val(position.0 * 100 + direction_factor.0) > GAME_AREA_LIMIT_X * 100
        || abs_val(position.1 * 100 + direction_factor.1) > GAME_AREA_LIMIT_Y * 100
}

/// Check if the next movement would be out of the game area.
pub fn is_next_movement_out_of_game_area(
    position: (i64, i64),
    direction_factor: (i64, i64),
) -> (r: bool)
    requires
        in_coord_range(position),
        valid_direction(direction_factor),
    ensures
        r == next_movement_out_of_game_area(position, direction_factor),
{
    let next_x = position.0 * 100 + direction_factor.0;
    let next_y = position.1 * 100 + direction_factor.1;
    let abs_next_x = if next_x < 0 { -next_x } else { next_x };
    let abs_next_y = if next_y < 0 { -next_y } else { next_y };
    abs_next_x > GAME_AREA_LIMIT_X * 100 || abs_next_y > GAME_AREA_LIMIT_Y * 100
}

/// Initial position of the player on the x axis.
pub const INITIAL_PLAYER_POSITION_X: i64 = 0;

/// Initial position of the player on the y axis.
pub const INITIAL_PLAYER_POSITION_Y: i64 = -215;

/// Initial speed of the player, in world units per second.
pub const INITIAL_PLAYER_SPEED: i64 = 350;

/// Initial direction of the player: one full unit upwards.
pub const INITIAL_PLAYER_DIRECTION_X: i64 = 0;

/// Initial direction of the player along the y axis.
pub const INITIAL_PLAYER_DIRECTION_Y: i64 = 100;

/// Magnitude of one axis of a single-key movement direction.
pub const KEY_DIRECTION_UNIT: i64 = 100;

/// Magnitude of one axis of a diagonal movement direction: a full unit
/// reduced by about a third, so that diagonal movement is not faster than
/// movement along one axis.
pub const KEY_DIRECTION_DIAGONAL: i64 = 67;

/// One axis of a diagonal movement: zero stays zero, a full unit shrinks
/// to the diagonal magnitude, keeping its sign.
pub open spec fn diagonal_axis(v: int) -> int {
    if v > 0 {
        KEY_DIRECTION_DIAGONAL as int
    } else if v < 0 {
        -KEY_DIRECTION_DIAGONAL as int
    } else {
        0
    }
}

/// The movement direction the pressed arrow keys ask for: none when no key
/// is pressed, a full unit on one axis for a single key, and a reduced
/// diagonal when several keys are pressed.  An axis with both its keys
/// pressed resolves to the right key on the x axis and to the down key on
/// the y axis.
pub open spec fn keyboard_direction(
    left: bool,
    right: bool,
    up: bool,
    down: bool,
) -> Option<(i64, i64)> {
    let x: int = if right {
        KEY_DIRECTION_UNIT as int
    } else if left {
        -KEY_DIRECTION_UNIT as int
    } else {
        0
    };
    let y: int = if down {
        -KEY_DIRECTION_UNIT as int
    } else if up {
        KEY_DIRECTION_UNIT as int
    } else {
        0
    };
    let pressed = (if left { 1int } else { 0int }) + (if right { 1int } else { 0int }) + (if up {
        1int
    } else {
        0int
    }) + (if down { 1int } else { 0int });
    if pressed == 0 {
        None
    } else if pressed == 1 {
        Some((x as i64, y as i64))
    } else {
        Some((diagonal_axis(x) as i64, diagonal_axis(y) as i64))
    }
}

/// Compute the movement direction the pressed arrow keys ask for.
pub fn player_movement_direction(left: bool, right: bool, up: bool, down: bool) -> (r: Option<
    (i64, i64),
>)
    ensures
        r == keyboard_direction(left, right, up, down),
        r matches Some(d) ==> valid_direction(d),
{
    let mut direction: (i64, i64) = (0, 0);
    let mut number_of_valid_pressure: u8 = 0;

    if left {
        direction.0 = -KEY_DIRECTION_UNIT;
        number_of_valid_pressure = number_of_valid_pressure + 1;
    }
    if right {
        direction.0 = KEY_DIRECTION_UNIT;
        number_of_valid_pressure = number_of_valid_pressure + 1;
    }
    if up {
        direction.1 = KEY_DIRECTION_UNIT;
        number_of_valid_pressure = number_of_valid_pressure + 1;
    }
    if down {
        direction.1 = -KEY_DIRECTION_UNIT;
        number_of_valid_pressure = number_of_valid_pressure + 1;
    }

    if number_of_valid_pressure == 0 {
        return None;
    }
    if number_of_valid_pressure == 1 {
        return Some(direction);
    }

    let diagonal_x: i64 = if direction.0 > 0 {
        KEY_DIRECTION_DIAGONAL
    } else if direction.0 < 0 {
        -KEY_DIRECTION_DIAGONAL
    } else {
        0
    };
    let diagonal_y: i64 = if direction.1 > 0 {
        KEY_DIRECTION_DIAGONAL
    } else if direction.1 < 0 {
        -KEY_DIRECTION_DIAGONAL
    } else {
        0
    };
    Some((diagonal_x, diagonal_y))
}

/// The player after one frame of keyboard handling: the weapon makes a
/// fire attempt while the fire key is held and reloads otherwise, then the
/// player moves along the direction the arrow keys ask for, if any.
pub open spec fn keyboard_capture_next(
    p: Player,
    left: bool,
    right: bool,
    up: bool,
    down: bool,
    fire_pressed: bool,
    elapsed_ms: int,
) -> Player {
    let weapon = if fire_pressed {
        p.current_weapon.fire_next(elapsed_ms)
    } else {
        Pistol { current_amo: p.current_weapon.max_amo, ..p.current_weapon }
    };
    let sprite = match keyboard_direction(left, right, up, down) {
        Some(direction) => p.sprite_data.move_spec(elapsed_ms, direction),
        None => p.sprite_data,
    };
    Player { sprite_data: sprite, current_weapon: weapon }
}

/// Handle the keyboard for one frame: fire or reload, then move.  Returns
/// the projectile fired, if any.
pub fn keyboard_capture(
    player: &mut Player,
    left: bool,
    right: bool,
    up: bool,
    down: bool,
    fire_pressed: bool,
    elapsed_ms: u32,
) -> (fired: Option<Projectile>)
    requires
        old(player).wf(),
        elapsed_ms <= MAX_TICK_MS,
    ensures
        *final(player) == keyboard_capture_next(
            *old(player),
            left,
            right,
            up,
            down,
            fire_pressed,
            elapsed_ms as int,
        ),
        final(player).wf(),
        fired == (if fire_pressed && old(player).current_weapon.fire_ready(elapsed_ms as int) {
            Some(
                old(player).current_weapon.fired_projectile(
                    old(player).sprite_data.direction,
                    old(player).sprite_data.current_position,
                    false,
                ),
            )
        } else {
            Option::<Projectile>::None
        }),
        fired matches Some(p) ==> p.wf(),
{
    let fired = if fire_pressed {
        player.fire(elapsed_ms)
    } else {
        player.reload_weapon();
        None
    };

    if let Some(direction) = player_movement_direction(left, right, up, down) {
        player.sprite_data.move_sprite(elapsed_ms, direction);
    }

    fired
}

/// One game session: the singleton player and scoreboard, and the entity
/// stores for the enemies and the projectiles in flight.
pub struct GameSession {
    /// The player of the session.
    pub player: Player,
    /// Score, health and difficulty of the session.
    pub score: ScoreAndInfo,
    /// The enemies alive, in store order.
    pub ennemies: Vec<Ennemy>,
    /// The projectiles in flight, in store order.
    pub projectiles: Vec<Projectile>,
}

impl GameSession {
    /// The internal invariant of a session: every part is well formed.
    pub open spec fn wf(&self) -> bool {
        &&& self.player.wf()
        &&& self.score.wf()
        &&& ennemies_wf(self.ennemies@)
        &&& projectiles_wf(self.projectiles@)
    }

    /// Returns a fresh session: the player at its initial position with its
    /// initial speed and direction, a fresh scoreboard, and no enemies or
    /// projectiles.  Restarting after a game over constructs the same.
    pub fn new() -> (r: GameSession)
        ensures
            r.player.sprite_data.current_position == (
                INITIAL_PLAYER_POSITION_X,
                INITIAL_PLAYER_POSITION_Y,
            ),
            r.player.sprite_data.speed == INITIAL_PLAYER_SPEED,
            r.player.sprite_data.direction == (
                INITIAL_PLAYER_DIRECTION_X,
                INITIAL_PLAYER_DIRECTION_Y,
            ),
            r.score == (ScoreAndInfo {
                score: 0,
                health: crate::game_system::scoreboard::INITIAL_PLAYER_HEALTH,
                percent_until_next_level: 0,
                difficulty_level: 0,
                level_elapsed_ms: 0,
            }),
            r.ennemies@ == Seq::<Ennemy>::empty(),
            r.projectiles@ == Seq::<Projectile>::empty(),
            r.wf(),
    {
        GameSession {
            player: Player::new(
                INITIAL_PLAYER_SPEED,
                (INITIAL_PLAYER_DIRECTION_X, INITIAL_PLAYER_DIRECTION_Y),
                (INITIAL_PLAYER_POSITION_X, INITIAL_PLAYER_POSITION_Y),
            ),
            score: ScoreAndInfo::new(),
            ennemies: Vec::new(),
            projectiles: Vec::new(),
        }
    }

    /// The projectiles in flight after the firing stages of one frame: the
    /// ones already in flight, then the player's shot if the fire key and
    /// the weapon allow one, then the enemies' shots in store order.
    pub open spec fn tick_projectiles(
        self,
        fire_pressed: bool,
        elapsed_ms: int,
    ) -> Seq<Projectile> {
        let with_player = if fire_pressed && self.player.current_weapon.fire_ready(elapsed_ms) {
            self.projectiles@.push(
                self.player.current_weapon.fired_projectile(
                    self.player.sprite_data.direction,
                    self.player.sprite_data.current_position,
                    false,
                ),
            )
        } else {
            self.projectiles@
        };
        with_player + fired_projectiles(self.ennemies@, elapsed_ms)
    }

    /// Simulate one frame in the fixed order: keyboard (fire or reload,
    /// then move), enemy policy and spawn gate, projectile movement with
    /// lifetime control, collision resolution, difficulty update.  The
    /// returned ghost sequence is the enemy store after the spawn gate,
    /// which pins every later stage: the spawn draw is the single random
    /// choice of a frame.
    pub fn simulate_tick(
        &mut self,
        left: bool,
        right: bool,
        up: bool,
        down: bool,
        fire_pressed: bool,
        elapsed_ms: u32,
    ) -> (mid_ennemies: Ghost<Seq<Ennemy>>)
        requires
            old(self).wf(),
            elapsed_ms <= MAX_TICK_MS,
            old(self).score.score + (MAX_POINTS_PER_HITS + MAX_POINTS_PER_HITS * DEATH_POINT_COEF)
                * (old(self).projectiles@.len() + 1 + old(self).ennemies@.len()) <= u64::MAX,
        ensures
            ({
                let stepped = stepped_ennemies(old(self).ennemies@, elapsed_ms as int);
                mid_ennemies@ == stepped || (stepped.len() < MAXIMUM_NUMBER_OF_ENNEMIES
                    && mid_ennemies@.len() == stepped.len() + 1 && mid_ennemies@.subrange(
                    0,
                    stepped.len() as int,
                ) == stepped && valid_spawned_ennemy(mid_ennemies@.last()))
            }),
            ({
                let player_after = keyboard_capture_next(
                    old(self).player,
                    left,
                    right,
                    up,
                    down,
                    fire_pressed,
                    elapsed_ms as int,
                );
                let in_flight = surviving_projectiles(
                    old(self).tick_projectiles(fire_pressed, elapsed_ms as int),
                    elapsed_ms as int,
                );
                let rt = resolve_tick(player_after.sprite_data, in_flight, mid_ennemies@);
                &&& final(self).player == player_after
                &&& final(self).projectiles@ == rt.0
                &&& final(self).ennemies@ == rt.1
                &&& final(self).score == (ScoreAndInfo {
                    score: (old(self).score.score + rt.2) as u64,
                    health: (if rt.3 >= old(self).score.health {
                        0int
                    } else {
                        old(self).score.health - rt.3
                    }) as u32,
                    ..old(self).score
                }).update_percent_spec(elapsed_ms as int)
            }),
            final(self).wf(),
    {
        let ghost c = (MAX_POINTS_PER_HITS + MAX_POINTS_PER_HITS * DEATH_POINT_COEF) as int;
        let ghost initial = *self;

        if let Some(projectile) = keyboard_capture(
            &mut self.player,
            left,
            right,
            up,
            down,
            fire_pressed,
            elapsed_ms,
        ) {
            self.projectiles.push(projectile);
        }

        let difficulty_level = self.score.get_difficulty_level();
        let mut fired = ennemy_ai_system(&mut self.ennemies, difficulty_level, elapsed_ms);
        let ghost mid = self.ennemies@;
        let ghost fired_seq = fired@;
        let ghost before_append = self.projectiles@;
        self.projectiles.append(&mut fired);
        proof {
            assert(self.projectiles@ == initial.tick_projectiles(
                fire_pressed,
                elapsed_ms as int,
            ));
            lemma_fired_projectiles_len(initial.ennemies@, elapsed_ms as int);
            assert forall|j: int|
                0 <= j < self.projectiles@.len() implies (#[trigger] self.projectiles@[j]).wf() by {
                if j < before_append.len() {
                    assert(self.projectiles@[j] == before_append[j]);
                    if j < initial.projectiles@.len() {
                        assert(before_append[j] == initial.projectiles@[j]);
                    }
                } else {
                    assert(self.projectiles@[j] == fired_seq[j - before_append.len()]);
                }
            }
        }

        projectile_movement_system(&mut self.projectiles, elapsed_ms);
        proof {
            lemma_surviving_projectiles_len(
                initial.tick_projectiles(fire_pressed, elapsed_ms as int),
                elapsed_ms as int,
            );
            assert(self.projectiles@.len() <= initial.projectiles@.len() + 1
                + initial.ennemies@.len());
            assert(c * self.projectiles@.len() <= c * (initial.projectiles@.len() + 1
                + initial.ennemies@.len())) by (nonlinear_arith)
                requires
                    c >= 0,
                    self.projectiles@.len() <= initial.projectiles@.len() + 1
                        + initial.ennemies@.len();
        }

        projectile_collision_and_score_system(
            &mut self.projectiles,
            &mut self.ennemies,
            &self.player,
            &mut self.score,
            elapsed_ms as u64,
        );

        Ghost(mid)
    }
}

} // verus!
