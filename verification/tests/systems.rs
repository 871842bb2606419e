use street_of_zombies::game_entity::ennemies::Ennemy;
use street_of_zombies::game_entity::player::Player;
use street_of_zombies::game_entity::projectiles::Projectile;
use street_of_zombies::game_system::ennemy_spawn_ai_gameplay::ennemy_ai_system;
use street_of_zombies::game_system::ennemy_spawn_ai_gameplay::ennemy_spawn_system;
use street_of_zombies::game_system::ennemy_spawn_ai_gameplay::spawn_factor;
use street_of_zombies::game_system::ennemy_spawn_ai_gameplay::spawn_gate;
use street_of_zombies::game_system::ennemy_spawn_ai_gameplay::generate_new_ennemy;
use street_of_zombies::game_system::ennemy_spawn_ai_gameplay::INITIAL_ENNEMY_SPEED;
use street_of_zombies::game_system::is_next_movement_out_of_game_area;
use street_of_zombies::game_system::keyboard_capture;
use street_of_zombies::game_system::GameSession;
use street_of_zombies::game_system::player_movement_direction;
use street_of_zombies::game_system::projectile_and_kill_gameplay::check_collision_with_ennemy;
use street_of_zombies::game_system::projectile_and_kill_gameplay::check_collision_with_player;
use street_of_zombies::game_system::projectile_and_kill_gameplay::get_position_and_hitboxes;
use street_of_zombies::game_system::projectile_and_kill_gameplay::is_entities_collides;
use street_of_zombies::game_system::projectile_and_kill_gameplay::projectile_collision_and_score_system;
use street_of_zombies::game_system::projectile_and_kill_gameplay::projectile_movement_system;
use street_of_zombies::game_system::scoreboard::ScoreAndInfo;
use street_of_zombies::game_system::scoreboard::INITIAL_PLAYER_HEALTH;
use street_of_zombies::game_system::scoreboard::MAX_DIFFICULTY_LEVEL;
use street_of_zombies::game_system::GAME_AREA_LIMIT_X;
use street_of_zombies::game_system::GAME_AREA_LIMIT_Y;
use street_of_zombies::math_and_generator::calculate_cartesian_distance;
use street_of_zombies::math_and_generator::generate_random_direction_factor;
use street_of_zombies::math_and_generator::generate_random_direction_factor_strict;
use street_of_zombies::math_and_generator::generate_random_position;
use street_of_zombies::math_and_generator::DIRECTION_UNIT;
use street_of_zombies::sprite_manager_system::animate_sprite;
use street_of_zombies::sprite_manager_system::generate_texture_position_from_coeff_factor;
use street_of_zombies::sprite_manager_system::TexturePositionEnum;
use street_of_zombies::game_entity::MoveableSprite;

#[test]
fn calculate_cartesian_distance_positive() {
    let from_point: (i64, i64) = (50, 50);
    let to_point: (i64, i64) = (10, 10);
    let calculated_distance = calculate_cartesian_distance(from_point, to_point);
    assert_eq!(calculated_distance, 56);
}

#[test]
fn calculate_cartesian_distance_0() {
    let from_point: (i64, i64) = (0, 0);
    let to_point: (i64, i64) = (0, 0);
    let calculated_distance = calculate_cartesian_distance(from_point, to_point);
    assert_eq!(calculated_distance, 0);
}

#[test]
fn calculate_cartesian_distance_negative() {
    let from_point: (i64, i64) = (-10, -10);
    let to_point: (i64, i64) = (-50, -50);
    let calculated_distance = calculate_cartesian_distance(from_point, to_point);
    assert_eq!(calculated_distance, 56);
}

#[test]
fn cartesian_distance_is_symmetric() {
    let a: (i64, i64) = (123, -456);
    let b: (i64, i64) = (-7, 89);
    assert_eq!(
        calculate_cartesian_distance(a, b),
        calculate_cartesian_distance(b, a)
    );
    assert_eq!(calculate_cartesian_distance(a, a), 0);
}

#[test]
fn strict_direction_factor_magnitudes_sum_to_one_unit() {
    for _ in 0..100 {
        let (x, y) = generate_random_direction_factor_strict();
        assert_eq!(x.abs() + y.abs(), DIRECTION_UNIT);
    }
}

#[test]
fn random_direction_factor_is_in_range() {
    for _ in 0..100 {
        let (x, y) = generate_random_direction_factor();
        assert!(-DIRECTION_UNIT <= x && x < DIRECTION_UNIT);
        assert!(-DIRECTION_UNIT <= y && y < DIRECTION_UNIT);
    }
}

#[test]
fn random_position_is_inside_bounds() {
    for _ in 0..100 {
        let (x, y) = generate_random_position(500, 200);
        assert!(-500 <= x && x < 500);
        assert!(-200 <= y && y < 200);
    }
}

#[test]
fn next_movement_out_of_game_area() {
    assert_eq!(
        is_next_movement_out_of_game_area((GAME_AREA_LIMIT_X, GAME_AREA_LIMIT_Y), (1, 1)),
        true
    );
}

#[test]
fn next_movement_inside_of_game_area() {
    assert_eq!(is_next_movement_out_of_game_area((0, 0), (0, 0)), false);
}

#[test]
fn score_board_add_system_test() {
    let mut player_data = ScoreAndInfo::new();
    player_data.add_to_score(5000);

    assert_eq!(player_data.get_score(), 5000);
}

#[test]
fn health_overflow_test() {
    let mut player_data = ScoreAndInfo::new();
    player_data.remove_health(5000);

    assert_eq!(player_data.get_health(), 0);
    assert_eq!(player_data.is_gameover(), true);
}

#[test]
fn health_remove_test() {
    let mut player_data = ScoreAndInfo::new();
    player_data.remove_health(1);

    assert_eq!(player_data.get_health(), INITIAL_PLAYER_HEALTH - 1);
}

#[test]
fn increase_difficulty_level_test() {
    let mut player_data = ScoreAndInfo::new();
    player_data.increase_difficulty_level();

    assert_eq!(player_data.get_difficulty_level(), 1);
}

#[test]
fn increase_difficulty_level_to_max_test() {
    let mut player_data = ScoreAndInfo::new();

    for _ in 0..MAX_DIFFICULTY_LEVEL + 5 {
        player_data.increase_difficulty_level();
    }

    assert_eq!(player_data.get_difficulty_level(), MAX_DIFFICULTY_LEVEL);
}

#[test]
fn percent_test() {
    let mut player_data = ScoreAndInfo::new();

    player_data.update_percent_until_next_level(1_000);

    let percent_for_one_sec = 100 / 60;

    assert_eq!(
        player_data.get_percent_until_next_difficulty_level() >= percent_for_one_sec,
        true
    );
}

#[test]
fn percent_progression_and_level_up() {
    let mut player_data = ScoreAndInfo::new();

    player_data.update_percent_until_next_level(30_000);
    assert_eq!(player_data.get_percent_until_next_difficulty_level(), 50);

    player_data.update_percent_until_next_level(30_000);
    assert_eq!(player_data.get_difficulty_level(), 1);
    assert_eq!(player_data.get_percent_until_next_difficulty_level(), 0);
}

#[test]
fn percent_is_sentinel_at_max_level() {
    let mut player_data = ScoreAndInfo::new();
    for _ in 0..MAX_DIFFICULTY_LEVEL {
        player_data.increase_difficulty_level();
    }
    assert_eq!(player_data.get_percent_until_next_difficulty_level(), 666);
}

#[test]
fn difficulty_text_starts_easy() {
    let player_data = ScoreAndInfo::new();
    assert_eq!(player_data.get_difficulty_text(), "EASY");
}

#[test]
fn game_over_test() {
    let mut player_data = ScoreAndInfo::new();

    player_data.remove_health(INITIAL_PLAYER_HEALTH);

    assert_eq!(player_data.is_gameover(), true);
}

#[test]
fn game_continue_test() {
    let player_data = ScoreAndInfo::new();

    assert_eq!(player_data.is_gameover(), false);
}

#[test]
fn get_position_from_moveable_sprite() {
    let ennemy = Ennemy::new(500, (5, 10), (15, 20), 50);
    let (ennemy_position, _) = get_position_and_hitboxes(ennemy.get_moveable_interface());

    assert_eq!(ennemy_position, (15, 20));
}

#[test]
fn get_hitbox_from_moveable_sprite() {
    let ennemy = Ennemy::new(500, (5, 10), (15, 20), 50);
    let (_, ennemy_hitbox) = get_position_and_hitboxes(ennemy.get_moveable_interface());
    let ennemy_hibox = ennemy.get_moveable_interface().get_hitbox_size();

    assert_eq!(ennemy_hitbox, ennemy_hibox);
}

#[test]
fn two_moveable_sprite_not_collides() {
    let ennemy = Ennemy::new(500, (5, 10), (15, 20), 50);
    let projectile = Projectile::new(500, (5, 10), (150, 2000), 500, false);

    assert_eq!(
        is_entities_collides(
            ennemy.get_moveable_interface(),
            projectile.get_moveable_interface()
        ),
        false
    );
}

#[test]
fn two_moveable_sprite_collides() {
    let ennemy = Ennemy::new(500, (5, 10), (15, 20), 50);
    let player = Player::new(500, (5, 10), (15, 20));

    assert_eq!(
        is_entities_collides(
            ennemy.get_moveable_interface(),
            player.get_moveable_interface()
        ),
        true
    );
}

#[test]
fn coincident_projectile_hits_ennemy() {
    // An enemy at (15, 20) with its default hitbox, a coincident
    // player-fired projectile: the hit despawns the projectile, costs one
    // enemy health point and awards the per-hit value.
    let mut ennemies = vec![Ennemy::new(500, (5, 10), (15, 20), 50)];
    let projectile = Projectile::new(500, (5, 10), (15, 20), 500, false);
    let mut score = ScoreAndInfo::new();

    let hit = check_collision_with_ennemy(&mut ennemies, &projectile, &mut score);

    assert_eq!(hit, true);
    assert_eq!(ennemies.len(), 1);
    assert_eq!(ennemies[0].is_dead(), false);
    assert_eq!(score.get_score(), 50);
}

#[test]
fn distant_projectile_does_not_hit_ennemy() {
    let mut ennemies = vec![Ennemy::new(500, (5, 10), (15, 20), 50)];
    let projectile = Projectile::new(500, (5, 10), (150, 2000), 500, false);
    let mut score = ScoreAndInfo::new();

    let hit = check_collision_with_ennemy(&mut ennemies, &projectile, &mut score);

    assert_eq!(hit, false);
    assert_eq!(ennemies.len(), 1);
    assert_eq!(score.get_score(), 0);
}

#[test]
fn ennemy_killed_by_third_hit_awards_death_bonus() {
    let mut ennemies = vec![Ennemy::new(500, (5, 10), (15, 20), 50)];
    let mut score = ScoreAndInfo::new();

    for _ in 0..2 {
        let projectile = Projectile::new(500, (5, 10), (15, 20), 500, false);
        let hit = check_collision_with_ennemy(&mut ennemies, &projectile, &mut score);
        assert_eq!(hit, true);
        assert_eq!(ennemies.len(), 1);
    }

    let projectile = Projectile::new(500, (5, 10), (15, 20), 500, false);
    let hit = check_collision_with_ennemy(&mut ennemies, &projectile, &mut score);

    assert_eq!(hit, true);
    assert_eq!(ennemies.len(), 0);
    // Three per-hit awards plus the death bonus of four times the value.
    assert_eq!(score.get_score(), 50 + 50 + 50 + 50 * 4);
}

#[test]
fn ennemy_projectile_hits_player() {
    let player = Player::new(500, (0, 100), (0, 0));
    let projectile = Projectile::new(300, (0, -100), (5, 5), 500, true);
    let mut score = ScoreAndInfo::new();

    let hit = check_collision_with_player(&player, &projectile, &mut score);

    assert_eq!(hit, true);
    assert_eq!(score.get_health(), INITIAL_PLAYER_HEALTH - 1);
}

#[test]
fn collision_system_resolves_projectiles_in_order() {
    let player = Player::new(500, (0, 100), (-400, -200));
    let mut ennemies = vec![Ennemy::new(500, (5, 10), (15, 20), 50)];
    let mut projectiles = vec![
        // A player-fired projectile on the enemy.
        Projectile::new(500, (5, 10), (15, 20), 500, false),
        // An enemy-fired projectile on the player.
        Projectile::new(300, (0, -100), (-400, -200), 500, true),
        // A player-fired projectile that misses everything.
        Projectile::new(500, (5, 10), (400, 250), 500, false),
    ];
    let mut score = ScoreAndInfo::new();

    projectile_collision_and_score_system(
        &mut projectiles,
        &mut ennemies,
        &player,
        &mut score,
        16,
    );

    assert_eq!(projectiles.len(), 1);
    assert_eq!(ennemies.len(), 1);
    assert_eq!(score.get_score(), 50);
    assert_eq!(score.get_health(), INITIAL_PLAYER_HEALTH - 1);
}

#[test]
fn projectile_movement_removes_spent_projectiles() {
    let mut projectiles = vec![
        // Flies on: well within range and inside the playfield.
        Projectile::new(200, (100, 0), (0, 0), 500, false),
        // Expired by range: it travelled far beyond its limit of 500 and
        // the movement step clamps it to the playfield corner (500, 300),
        // still more than 500 units from its spawn point (15, 20).
        {
            let mut far = Projectile::new(200, (0, 0), (15, 20), 500, false);
            far.get_moveable_interface_mut().set_new_position((600, 600));
            far
        },
    ];

    projectile_movement_system(&mut projectiles, 1_000);

    assert_eq!(projectiles.len(), 1);
    assert_eq!(projectiles[0].get_moveable_interface().get_position(), (200, 0));
}

#[test]
fn generated_ennemy_has_spawn_defaults() {
    for _ in 0..20 {
        let ennemy = generate_new_ennemy();
        assert_eq!(ennemy.get_moveable_interface().get_speed(), INITIAL_ENNEMY_SPEED);
        assert_eq!(ennemy.get_point_value_per_hits(), 50);
        assert_eq!(ennemy.is_dead(), false);
        let position = ennemy.get_moveable_interface().get_position();
        assert!(-GAME_AREA_LIMIT_X <= position.0 && position.0 < GAME_AREA_LIMIT_X);
        assert!(-GAME_AREA_LIMIT_Y <= position.1 && position.1 < GAME_AREA_LIMIT_Y);
        let fire = ennemy.fire_direction;
        assert_eq!(fire.0.abs() + fire.1.abs(), DIRECTION_UNIT);
    }
}

#[test]
fn spawn_factor_shrinks_with_difficulty() {
    assert_eq!(spawn_factor(0), 1_100);
    assert_eq!(spawn_factor(1), 900);
    assert_eq!(spawn_factor(5), 100);
}

#[test]
fn spawn_gate_passes_only_low_draws() {
    assert_eq!(spawn_gate(0), true);
    assert_eq!(spawn_gate(2), true);
    assert_eq!(spawn_gate(3), false);
    assert_eq!(spawn_gate(1_099), false);
}

#[test]
fn generated_ennemy_direction_is_in_range() {
    for _ in 0..20 {
        let ennemy = generate_new_ennemy();
        let direction = ennemy.get_moveable_interface().get_direction();
        assert!(-DIRECTION_UNIT <= direction.0 && direction.0 < DIRECTION_UNIT);
        assert!(-DIRECTION_UNIT <= direction.1 && direction.1 < DIRECTION_UNIT);
    }
}

#[test]
fn spawn_system_only_makes_valid_ennemies() {
    for _ in 0..200 {
        if let Some(ennemy) = ennemy_spawn_system(5) {
            assert_eq!(ennemy.get_moveable_interface().get_speed(), INITIAL_ENNEMY_SPEED);
            assert_eq!(ennemy.get_point_value_per_hits(), 50);
        }
    }
}

#[test]
fn ai_system_moves_and_respects_population_cap() {
    let mut ennemies = vec![Ennemy::new(200, (100, 0), (0, 0), 50)];

    let fired = ennemy_ai_system(&mut ennemies, 0, 1_000);

    // The enemy moved 200 units right and fired its first shot.
    assert!(ennemies.len() == 1 || ennemies.len() == 2);
    assert_eq!(ennemies[0].get_moveable_interface().get_position(), (200, 0));
    assert_eq!(fired.len(), 1);
    assert_eq!(fired[0].is_coming_from_ennemy(), true);
}

#[test]
fn ennemy_reverses_direction_at_patrol_limit() {
    let mut ennemies = vec![Ennemy::new(200, (100, 0), (0, 0), 50)];

    // Two seconds at speed 200 move the enemy 400 units from its spawn
    // point, beyond the 300-unit patrol radius: the direction reverses.
    let _ = ennemy_ai_system(&mut ennemies, 0, 2_000);

    assert_eq!(ennemies[0].get_moveable_interface().get_position(), (400, 0));
    assert_eq!(ennemies[0].get_moveable_interface().get_direction(), (-100, 0));
}

#[test]
fn keyboard_direction_single_and_diagonal() {
    assert_eq!(player_movement_direction(false, false, false, false), None);
    assert_eq!(player_movement_direction(true, false, false, false), Some((-100, 0)));
    assert_eq!(player_movement_direction(false, true, false, false), Some((100, 0)));
    assert_eq!(player_movement_direction(false, false, true, false), Some((0, 100)));
    assert_eq!(player_movement_direction(false, false, false, true), Some((0, -100)));
    assert_eq!(player_movement_direction(true, false, true, false), Some((-67, 67)));
    assert_eq!(player_movement_direction(false, true, false, true), Some((67, -67)));
}

#[test]
fn keyboard_capture_fires_and_moves() {
    let mut player = Player::new(350, (0, 100), (0, -215));

    let fired = keyboard_capture(&mut player, false, true, false, false, true, 1_000);

    assert!(fired.is_some());
    let projectile = fired.unwrap();
    assert_eq!(projectile.get_moveable_interface().get_position(), (0, -215));
    assert_eq!(projectile.is_coming_from_ennemy(), false);
    // One second to the right at speed 350.
    assert_eq!(player.get_position(), (350, -215));
    assert_eq!(player.get_direction(), (100, 0));
}

#[test]
fn keyboard_capture_reloads_when_not_firing() {
    let mut player = Player::new(350, (0, 100), (0, -215));

    let first = keyboard_capture(&mut player, false, false, false, false, true, 16);
    assert!(first.is_some());

    let reloading = keyboard_capture(&mut player, false, false, false, false, false, 16);
    assert!(reloading.is_none());
    assert_eq!(player.current_weapon.get_amo(), 800);
}

#[test]
fn coeff_factor_to_texture_up() {
    let generated_direction = generate_texture_position_from_coeff_factor((0, 1));
    assert_eq!(generated_direction, TexturePositionEnum::Up);
}

#[test]
fn coeff_factor_to_texture_down() {
    let generated_direction = generate_texture_position_from_coeff_factor((0, -1));
    assert_eq!(generated_direction, TexturePositionEnum::Down);
}

#[test]
fn coeff_factor_to_texture_left() {
    let generated_direction = generate_texture_position_from_coeff_factor((-1, 0));
    assert_eq!(generated_direction, TexturePositionEnum::Left);
}

#[test]
fn coeff_factor_to_texture_right() {
    let generated_direction = generate_texture_position_from_coeff_factor((1, 0));
    assert_eq!(generated_direction, TexturePositionEnum::Right);
}

#[test]
fn coeff_factor_to_texture_priority_up() {
    let generated_direction = generate_texture_position_from_coeff_factor((1, 1));
    assert_eq!(generated_direction, TexturePositionEnum::Up);
}

#[test]
fn coeff_factor_to_texture_priority_down() {
    let generated_direction = generate_texture_position_from_coeff_factor((1, -1));
    assert_eq!(generated_direction, TexturePositionEnum::Down);
}

#[test]
fn session_tick_runs_all_systems_in_order() {
    let mut session = GameSession::new();

    // First frame: hold fire without moving; the player's shot enters the
    // projectile store and nothing hurts the player.
    let _ = session.simulate_tick(false, false, false, false, true, 16);
    assert!(!session.projectiles.is_empty());
    assert_eq!(session.score.get_health(), INITIAL_PLAYER_HEALTH);
    assert!(!session.score.is_gameover());

    // The shot flies upwards and expires once it exceeds its 700-unit
    // range or leaves the playfield; nothing here can raise the score.
    for _ in 0..600 {
        let _ = session.simulate_tick(false, false, false, false, false, 16);
    }
    assert_eq!(session.player.get_position(), (0, -215));
}

#[test]
fn animate_sprite_advances_frame_only_when_moved() {
    let mut sprite = MoveableSprite::new(200, (0, 100), (0, 0), (10, 10));

    assert_eq!(animate_sprite(&mut sprite, 0), None);

    sprite.set_new_position((0, 50));
    // Facing up selects the fourth texture row of eight columns.
    assert_eq!(animate_sprite(&mut sprite, 0), Some(1 + 24));
    assert_eq!(animate_sprite(&mut sprite, 25), None);
}
