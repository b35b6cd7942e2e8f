use asciihou::combat::{
    despawn_support_units, enemy_hit, enemy_slot_free, enemy_spawn_due, item_hit,
    match_bullet_hit_pair, match_graze_bullet_pair, match_item_hit_pair, player_bomb,
    player_graze, player_hit, player_movement, spawn_support_units, EnemyHit, GrazeStep, Heading,
    Invincible, ItemKind, MovementKeys, PlayerHit, MAX_ENEMIES, STARTING_BOMBS, STARTING_GRAZE,
    STARTING_LIVES, STARTING_POINTS, STARTING_POWERS,
};
use bevy::time::{Timer, TimerMode};
use std::time::Duration;

#[test]
fn bullet_hit_pair_puts_the_bullet_first() {
    assert_eq!(match_bullet_hit_pair(1, 2, true, false, false, true), Some((1, 2)));
    assert_eq!(match_bullet_hit_pair(1, 2, false, true, true, false), Some((2, 1)));
}

#[test]
fn bullet_hit_pair_needs_a_bullet_and_a_target() {
    assert_eq!(match_bullet_hit_pair(1, 2, true, false, true, false), None);
    assert_eq!(match_bullet_hit_pair(1, 2, false, true, false, true), None);
    assert_eq!(match_bullet_hit_pair(1, 2, false, false, false, false), None);
}

#[test]
fn bullet_hit_pair_tries_the_first_entity_as_bullet_first() {
    assert_eq!(match_bullet_hit_pair(1, 2, true, true, true, true), Some((1, 2)));
}

#[test]
fn graze_pair_yields_the_bullet() {
    assert_eq!(match_graze_bullet_pair(7, 9, true, false, false, true), Some(9));
    assert_eq!(match_graze_bullet_pair(7, 9, false, true, true, false), Some(7));
    assert_eq!(match_graze_bullet_pair(7, 9, true, false, true, false), None);
    assert_eq!(match_graze_bullet_pair(7, 9, true, true, true, true), Some(9));
}

#[test]
fn item_pair_yields_the_other_entity() {
    assert_eq!(match_item_hit_pair(3, 4, true, false), Some(4));
    assert_eq!(match_item_hit_pair(3, 4, false, true), Some(3));
    assert_eq!(match_item_hit_pair(3, 4, true, true), Some(4));
    assert_eq!(match_item_hit_pair(3, 4, false, false), None);
}

#[test]
fn enemy_hit_takes_one_health() {
    assert_eq!(enemy_hit(3, false), EnemyHit::Damaged { health: 2 });
    assert_eq!(enemy_hit(2, false), EnemyHit::Damaged { health: 1 });
}

#[test]
fn enemy_hit_destroys_at_zero() {
    assert_eq!(enemy_hit(1, false), EnemyHit::Destroyed { health: 0 });
    assert_eq!(enemy_hit(0, false), EnemyHit::Destroyed { health: -1 });
}

#[test]
fn invincible_enemy_is_not_hit() {
    assert_eq!(enemy_hit(1, true), EnemyHit::Ignored);
    assert_eq!(enemy_hit(5, true), EnemyHit::Ignored);
}

#[test]
fn player_hit_takes_a_life_and_drops_half_the_power() {
    assert_eq!(player_hit(2, 7, false), PlayerHit::Down { lives: 1, dropped_power: 4 });
    assert_eq!(player_hit(2, 8, false), PlayerHit::Down { lives: 1, dropped_power: 4 });
    assert_eq!(player_hit(1, 1, false), PlayerHit::Down { lives: 0, dropped_power: 1 });
}

#[test]
fn player_hit_keeps_lives_at_zero() {
    assert_eq!(player_hit(0, 0, false), PlayerHit::Down { lives: 0, dropped_power: 0 });
    assert_eq!(player_hit(-4, -3, false), PlayerHit::Down { lives: 0, dropped_power: 0 });
}

#[test]
fn player_hit_drop_agrees_with_halving_upwards() {
    for powers in 0..200 {
        let expected = (powers as f32 * 0.5).ceil() as u32;
        assert_eq!(player_hit(3, powers, false), PlayerHit::Down { lives: 2, dropped_power: expected });
    }
    assert_eq!(
        player_hit(3, i32::MAX, false),
        PlayerHit::Down { lives: 2, dropped_power: 1073741824 }
    );
}

#[test]
fn invincible_player_is_not_hit() {
    assert_eq!(player_hit(2, 40, true), PlayerHit::Ignored);
}

#[test]
fn bomb_stock_never_goes_below_zero() {
    assert_eq!(player_bomb(3), 2);
    assert_eq!(player_bomb(1), 0);
    assert_eq!(player_bomb(0), 0);
    assert_eq!(player_bomb(-7), 0);
}

#[test]
fn power_item_adds_power() {
    let mut powers = 4;
    let mut points = 9;
    assert!(item_hit(Some(ItemKind::Power), &mut powers, &mut points));
    assert_eq!((powers, points), (5, 9));
}

#[test]
fn point_item_adds_a_point() {
    let mut powers = 4;
    let mut points = 9;
    assert!(item_hit(Some(ItemKind::Point), &mut powers, &mut points));
    assert_eq!((powers, points), (4, 10));
}

#[test]
fn other_entities_are_not_picked_up() {
    let mut powers = 4;
    let mut points = 9;
    assert!(!item_hit(None, &mut powers, &mut points));
    assert_eq!((powers, points), (4, 9));
}

#[test]
fn graze_counts_a_bullet_once() {
    let mut graze = 0;
    assert_eq!(player_graze(true, false, &mut graze), GrazeStep::Begin);
    assert_eq!(graze, 1);
    assert_eq!(player_graze(true, true, &mut graze), GrazeStep::Nothing);
    assert_eq!(graze, 1);
    assert_eq!(player_graze(false, true, &mut graze), GrazeStep::End);
    assert_eq!(graze, 1);
    assert_eq!(player_graze(false, false, &mut graze), GrazeStep::Nothing);
    assert_eq!(graze, 1);
}

#[test]
fn support_units_need_power_and_room() {
    assert!(spawn_support_units(1, 0));
    assert!(spawn_support_units(60, 1));
    assert!(!spawn_support_units(0, 0));
    assert!(!spawn_support_units(5, 2));
    assert!(!spawn_support_units(5, 3));
    assert!(despawn_support_units(0));
    assert!(despawn_support_units(-1));
    assert!(!despawn_support_units(1));
}

#[test]
fn field_holds_ten_enemies() {
    assert_eq!(MAX_ENEMIES, 10);
    assert!(enemy_slot_free(0));
    assert!(enemy_slot_free(9));
    assert!(!enemy_slot_free(10));
    assert!(!enemy_slot_free(11));
}

#[test]
fn enemy_is_due_when_the_clock_finishes() {
    let mut timer = Timer::new(Duration::from_millis(1000), TimerMode::Repeating);
    assert!(!enemy_spawn_due(3, &mut timer, Duration::from_millis(600)));
    assert!(enemy_spawn_due(3, &mut timer, Duration::from_millis(600)));
    assert_eq!(timer.elapsed(), Duration::from_millis(200));
    assert!(!enemy_spawn_due(3, &mut timer, Duration::from_millis(100)));
}

#[test]
fn full_field_stops_the_spawn_clock() {
    let mut timer = Timer::new(Duration::from_millis(1000), TimerMode::Repeating);
    assert!(!enemy_spawn_due(10, &mut timer, Duration::from_millis(5000)));
    assert_eq!(timer.elapsed(), Duration::ZERO);
    assert!(!timer.finished());
}

#[test]
fn game_starts_with_two_lives_and_three_bombs() {
    assert_eq!(STARTING_LIVES, 2);
    assert_eq!(STARTING_BOMBS, 3);
    assert_eq!(STARTING_POWERS, 0);
    assert_eq!(STARTING_GRAZE, 0);
    assert_eq!(STARTING_POINTS, 0);
}

#[test]
fn movement_keys_give_a_heading() {
    let keys = MovementKeys { up: true, down: false, left: true, right: false, focus: false };
    assert_eq!(player_movement(keys), Heading { x: -1, y: 1, slow: false });
    let keys = MovementKeys { up: false, down: true, left: false, right: true, focus: true };
    assert_eq!(player_movement(keys), Heading { x: 1, y: -1, slow: true });
}

#[test]
fn opposite_keys_cancel() {
    let keys = MovementKeys { up: true, down: true, left: true, right: true, focus: false };
    assert_eq!(player_movement(keys), Heading { x: 0, y: 0, slow: false });
    let keys = MovementKeys { up: false, down: false, left: false, right: false, focus: true };
    assert_eq!(player_movement(keys), Heading { x: 0, y: 0, slow: true });
}

#[test]
fn invincibility_ends_when_its_time_is_over() {
    let mut shield = Invincible(Timer::new(Duration::from_secs(3), TimerMode::Once));
    assert!(!shield.tick_invincibility(Duration::from_secs(1)));
    assert!(!shield.tick_invincibility(Duration::from_secs(1)));
    assert_eq!(shield.0.elapsed(), Duration::from_secs(2));
    assert!(shield.tick_invincibility(Duration::from_secs(1)));
    assert!(shield.tick_invincibility(Duration::from_secs(1)));
}
