use street_of_zombies::game_entity::ennemies::Ennemy;
use street_of_zombies::game_entity::ennemies::DEATH_POINT_COEF;
use street_of_zombies::game_entity::ennemies::INITIAL_HEALTH_POINTS;
use street_of_zombies::game_entity::player::Player;
use street_of_zombies::game_entity::player::DEFAULT_PLAYER_HITBOX_X;
use street_of_zombies::game_entity::player::DEFAULT_PLAYER_HITBOX_Y;
use street_of_zombies::game_entity::projectiles::Projectile;
use street_of_zombies::game_entity::position_to_game_area_limit;
use street_of_zombies::game_entity::MoveableSprite;
use street_of_zombies::game_system::GAME_AREA_LIMIT_X;
use street_of_zombies::game_system::GAME_AREA_LIMIT_Y;

#[test]
fn moveable_sprite_initial_speed() {
    let moveable_sprite = MoveableSprite::new(500, (5, 10), (15, 20), (10, 10));

    assert_eq!(moveable_sprite.get_speed(), 500);
}

#[test]
fn moveable_sprite_initial_direction() {
    let moveable_sprite = MoveableSprite::new(500, (5, 10), (15, 20), (10, 10));

    assert_eq!(moveable_sprite.get_direction(), (5, 10));
}

#[test]
fn moveable_sprite_initial_position() {
    let moveable_sprite = MoveableSprite::new(500, (5, 10), (15, 20), (10, 10));

    assert_eq!(moveable_sprite.get_position(), (15, 20));
}

#[test]
fn moveable_sprite_set_direction() {
    let mut moveable_sprite = MoveableSprite::new(500, (5, 10), (15, 20), (10, 10));

    moveable_sprite.set_new_direction((100, 45));
    assert_eq!(moveable_sprite.get_direction(), (100, 45));
}

#[test]
fn moveable_sprite_set_position() {
    let mut moveable_sprite = MoveableSprite::new(500, (5, 10), (15, 20), (10, 10));

    moveable_sprite.set_new_position((60, 40));
    assert_eq!(moveable_sprite.get_position(), (60, 40));
}

#[test]
fn projectile_get_hitbox_size() {
    let moveable_sprite = MoveableSprite::new(500, (5, 10), (15, 20), (10, 10));

    let hitbox_size = moveable_sprite.get_hitbox_size();
    assert_eq!(hitbox_size, (10, 10));
}

#[test]
fn sprite_moved_test() {
    let mut moveable_sprite = MoveableSprite::new(500, (5, 10), (15, 20), (10, 10));

    moveable_sprite.set_new_position((20, 50));
    assert_eq!(moveable_sprite.is_sprite_moved_after_last_call(), true);
}

#[test]
fn sprite_not_moved_test() {
    let mut moveable_sprite = MoveableSprite::new(500, (5, 10), (15, 20), (10, 10));

    assert_eq!(moveable_sprite.is_sprite_moved_after_last_call(), false);
}

#[test]
fn sprite_moved_reported_once() {
    let mut moveable_sprite = MoveableSprite::new(500, (5, 10), (15, 20), (10, 10));

    moveable_sprite.set_new_position((20, 50));
    assert_eq!(moveable_sprite.is_sprite_moved_after_last_call(), true);
    assert_eq!(moveable_sprite.is_sprite_moved_after_last_call(), false);
}

#[test]
fn inside_game_limit_test() {
    let vect_in_game_area = position_to_game_area_limit((0, 0));

    assert_eq!(vect_in_game_area.0, 0);
    assert_eq!(vect_in_game_area.1, 0);
}

#[test]
fn outside_game_limit_test() {
    let vect_in_game_area =
        position_to_game_area_limit((GAME_AREA_LIMIT_X + 50, GAME_AREA_LIMIT_Y + 50));

    assert_eq!(vect_in_game_area.0, GAME_AREA_LIMIT_X);
    assert_eq!(vect_in_game_area.1, GAME_AREA_LIMIT_Y);
}

#[test]
fn movement_clamps_to_playfield_bounds() {
    let mut moveable_sprite =
        MoveableSprite::new(500, (1, 1), (GAME_AREA_LIMIT_X, GAME_AREA_LIMIT_Y), (10, 10));

    moveable_sprite.move_sprite(1_000, (1, 1));
    assert_eq!(moveable_sprite.get_position(), (GAME_AREA_LIMIT_X, GAME_AREA_LIMIT_Y));

    moveable_sprite.move_sprite(60_000, (100, 100));
    assert_eq!(moveable_sprite.get_position(), (GAME_AREA_LIMIT_X, GAME_AREA_LIMIT_Y));
}

#[test]
fn movement_integration_step() {
    // One second at full-unit direction and speed 200 advances 200 units.
    let mut moveable_sprite = MoveableSprite::new(200, (100, 0), (0, 0), (10, 10));

    moveable_sprite.move_sprite(1_000, (100, 0));
    assert_eq!(moveable_sprite.get_position(), (200, 0));

    moveable_sprite.move_sprite(500, (-100, -100));
    assert_eq!(moveable_sprite.get_position(), (100, -100));
    assert_eq!(moveable_sprite.get_direction(), (-100, -100));
}

#[test]
fn ennemy_get_initial_position() {
    let ennemy = Ennemy::new(500, (5, 10), (15, 20), 50);

    assert_eq!(ennemy.get_initial_position(), (15, 20));
}

#[test]
fn ennemy_get_value_per_hits() {
    let ennemy = Ennemy::new(500, (5, 10), (15, 20), 50);

    assert_eq!(ennemy.get_point_value_per_hits(), 50);
}

#[test]
fn ennemy_get_value_on_death() {
    let ennemy = Ennemy::new(500, (5, 10), (15, 20), 50);

    assert_eq!(ennemy.get_point_value_on_death(), 50 * DEATH_POINT_COEF);
}

#[test]
fn ennemy_set_position_without_alter_default() {
    let mut ennemy = Ennemy::new(500, (5, 10), (15, 20), 50);
    ennemy.get_moveable_interface_mut().set_new_position((60, 40));
    assert_eq!(ennemy.get_initial_position(), (15, 20));
}

#[test]
fn ennemy_reduce_health() {
    let mut ennemy = Ennemy::new(500, (5, 10), (15, 20), 50);

    ennemy.reduce_health();

    assert_eq!(ennemy.is_dead(), INITIAL_HEALTH_POINTS == 1);
}

#[test]
fn ennemy_death_test() {
    let mut ennemy = Ennemy::new(500, (5, 10), (15, 20), 50);

    for _ in 0..INITIAL_HEALTH_POINTS {
        ennemy.reduce_health();
    }

    assert_eq!(ennemy.is_dead(), true);
}

#[test]
fn ennemy_not_dead_after_two_hits() {
    let mut ennemy = Ennemy::new(500, (5, 10), (15, 20), 50);

    ennemy.reduce_health();
    ennemy.reduce_health();

    assert_eq!(ennemy.is_dead(), false);
}

#[test]
fn ennemy_forced_reload_after_cooldown_tick() {
    let mut ennemy = Ennemy::new(500, (5, 10), (15, 20), 50);

    // Exhaust the three rounds; each attack needs the 500 ms fire rate.
    for _ in 0..3 {
        let fired = ennemy.launch_attack(600);
        assert!(fired.is_some());
    }
    assert_eq!(ennemy.current_weapon.get_amo(), 0);

    // 3 x 600 ms are accumulated; passing 2 500 ms forces a reload.
    let _ = ennemy.launch_attack(600);
    let _ = ennemy.launch_attack(600);
    assert_eq!(ennemy.current_weapon.get_amo(), 3);
}

#[test]
fn player_initial_speed() {
    let player = Player::new(500, (5, 10), (15, 20));

    assert_eq!(player.get_speed(), 500);
}

#[test]
fn player_initial_direction() {
    let player = Player::new(500, (5, 10), (15, 20));

    assert_eq!(player.get_direction(), (5, 10));
}

#[test]
fn player_initial_position() {
    let player = Player::new(500, (5, 10), (15, 20));

    assert_eq!(player.get_position(), (15, 20));
}

#[test]
fn player_set_direction() {
    let mut player = Player::new(500, (5, 10), (15, 20));
    player.set_new_direction((100, 45));
    assert_eq!(player.get_direction(), (100, 45));
}

#[test]
fn player_set_position() {
    let mut player = Player::new(500, (5, 10), (15, 20));
    player.set_new_position((60, 40));
    assert_eq!(player.get_position(), (60, 40));
}

#[test]
fn player_get_hitbox_size() {
    let player = Player::new(500, (5, 10), (15, 20));
    let hitbox_size = player.get_hitbox_size();
    assert_eq!(hitbox_size, (DEFAULT_PLAYER_HITBOX_X, DEFAULT_PLAYER_HITBOX_Y));
}

#[test]
fn player_weapon_reload_test() {
    let mut player = Player::new(500, (5, 10), (15, 20));
    // Reload in case of "uncharged initial weapon"
    player.reload_weapon();
    let initial_amo = player.current_weapon.get_amo();
    player.current_weapon.reduce_amo();
    player.reload_weapon();
    assert_eq!(player.current_weapon.get_amo(), initial_amo);
}

#[test]
fn player_fire_respects_cooldown() {
    let mut player = Player::new(500, (0, 100), (15, 20));

    let first = player.fire(16);
    assert!(first.is_some());
    let projectile = first.unwrap();
    assert_eq!(projectile.get_moveable_interface().get_position(), (15, 20));
    assert_eq!(projectile.get_moveable_interface().get_direction(), (0, 100));
    assert_eq!(projectile.is_coming_from_ennemy(), false);

    // The 180 ms fire rate has not elapsed after 16 ms.
    let second = player.fire(16);
    assert!(second.is_none());

    // After enough elapsed time the weapon fires again.
    let third = player.fire(200);
    assert!(third.is_some());
}

#[test]
fn projectile_out_of_fire_position() {
    let mut projectile = Projectile::new(500, (5, 10), (15, 20), 500, false);
    projectile.get_moveable_interface_mut().set_new_position((600, 600));
    assert_eq!(projectile.is_out_of_distance(), true);
}

#[test]
fn projectile_still_in_fire() {
    let mut projectile = Projectile::new(500, (5, 10), (15, 20), 500, false);
    projectile.get_moveable_interface_mut().set_new_position((50, 20));
    assert_eq!(projectile.is_out_of_distance(), false);
}

#[test]
fn projectile_is_launched_by_ennemy() {
    let projectile = Projectile::new(500, (5, 10), (15, 20), 500, true);
    assert_eq!(projectile.is_coming_from_ennemy(), true);
}

#[test]
fn projectile_is_launched_by_player() {
    let projectile = Projectile::new(500, (5, 10), (15, 20), 500, false);
    assert_eq!(projectile.is_coming_from_ennemy(), false);
}
