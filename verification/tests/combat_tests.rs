use stone_maze::combat::{enemy_fires, first_hit, steer, steer_enemy, BulletOutcome, EnemyMove, ShotOutcome};
use stone_maze::game::GameState;
use stone_maze::grid::Grid;

fn playing() -> GameState {
    GameState::new()
}

#[test]
fn first_enemy_in_range_is_hit() {
    assert_eq!(first_hit(&vec![]), None);
    assert_eq!(first_hit(&vec![false, false]), None);
    assert_eq!(first_hit(&vec![false, true, true]), Some(1));
    assert_eq!(first_hit(&vec![true]), Some(0));
}

#[test]
fn shooting_the_last_enemy_finishes_the_level() {
    let g = Grid::maze();
    let mut s = playing();
    let r = s.bullet_step(&g, &vec![true], (2, 2), false, false);
    assert_eq!(r, BulletOutcome { killed: Some(0), burst_at_bullet: false, moves: true, despawns: true });
    assert!(s.is_level_complete);
    assert!(!s.accepts_player_input());
}

#[test]
fn shooting_one_of_two_enemies_goes_on() {
    let g = Grid::maze();
    let mut s = playing();
    let r = s.bullet_step(&g, &vec![false, true], (2, 2), false, false);
    assert_eq!(r.killed, Some(1));
    assert!(r.despawns);
    assert!(!s.is_level_complete);
}

#[test]
fn bullet_into_a_wall_bursts_and_stops() {
    let g = Grid::maze();
    let mut s = playing();
    let r = s.bullet_step(&g, &vec![false], (0, 4), false, false);
    assert_eq!(r, BulletOutcome { killed: None, burst_at_bullet: true, moves: false, despawns: true });
    assert_eq!(s, playing());
}

#[test]
fn bullet_through_the_floor_bursts() {
    let g = Grid::maze();
    let mut s = playing();
    let r = s.bullet_step(&g, &vec![], (3, 4), true, false);
    assert_eq!(r, BulletOutcome { killed: None, burst_at_bullet: true, moves: false, despawns: true });
}

#[test]
fn bullet_in_flight_moves_until_it_expires() {
    let g = Grid::maze();
    let mut s = playing();
    let r = s.bullet_step(&g, &vec![false, false], (3, 4), false, false);
    assert_eq!(r, BulletOutcome { killed: None, burst_at_bullet: false, moves: true, despawns: false });
    let r = s.bullet_step(&g, &vec![false, false], (3, 4), false, true);
    assert_eq!(r, BulletOutcome { killed: None, burst_at_bullet: false, moves: true, despawns: true });
}

#[test]
fn bullet_that_kills_beside_a_wall_bursts_twice() {
    let g = Grid::maze();
    let mut s = playing();
    let r = s.bullet_step(&g, &vec![true, false], (5, 5), false, false);
    assert_eq!(r, BulletOutcome { killed: Some(0), burst_at_bullet: true, moves: false, despawns: true });
}

#[test]
fn enemy_bullet_hitting_the_player_loses_the_round() {
    let g = Grid::maze();
    let mut s = playing();
    let r = s.enemy_bullet_step(&g, true, (3, 4), false);
    assert_eq!(r, ShotOutcome { moves: false, despawns: true });
    assert!(s.is_game_over);
}

#[test]
fn enemy_bullet_stops_at_walls_and_expires() {
    let g = Grid::maze();
    let mut s = playing();
    assert_eq!(s.enemy_bullet_step(&g, false, (5, 5), false), ShotOutcome { moves: false, despawns: true });
    assert_eq!(s.enemy_bullet_step(&g, false, (3, 4), false), ShotOutcome { moves: true, despawns: false });
    assert_eq!(s.enemy_bullet_step(&g, false, (3, 4), true), ShotOutcome { moves: true, despawns: true });
    assert!(!s.is_game_over);
}

#[test]
fn enemy_fires_only_with_clear_sight_and_ready_gun() {
    let g = Grid::maze();
    let clear = vec![(1, 1), (2, 1), (3, 1)];
    let blocked = vec![(4, 4), (5, 4), (6, 4)];
    assert!(enemy_fires(&g, true, &clear));
    assert!(!enemy_fires(&g, false, &clear));
    assert!(!enemy_fires(&g, true, &blocked));
    assert!(enemy_fires(&g, true, &vec![]));
}

#[test]
fn enemy_turns_at_walls() {
    let g = Grid::maze();
    let blocked = vec![(1, 1), (0, 1)];
    let clear = vec![(1, 1), (2, 1)];
    assert_eq!(steer(&g, &blocked, true), EnemyMove::TurnLeft);
    assert_eq!(steer(&g, &blocked, false), EnemyMove::TurnRight);
    assert_eq!(steer(&g, &clear, true), EnemyMove::Advance);
    assert_eq!(steer_enemy(&g, &clear), EnemyMove::Advance);
    for _ in 0..20 {
        assert_ne!(steer_enemy(&g, &blocked), EnemyMove::Advance);
    }
}

#[test]
fn lost_round_stays_lost_through_projectile_steps() {
    let g = Grid::maze();
    let mut s = GameState { is_game_over: true, has_won: false, is_level_complete: false, current_level: 3 };
    s.bullet_step(&g, &vec![false], (3, 4), false, false);
    s.enemy_bullet_step(&g, false, (3, 4), false);
    assert_eq!(s, GameState { is_game_over: true, has_won: false, is_level_complete: false, current_level: 3 });
    assert!(!s.accepts_player_input());
}

#[test]
fn finished_level_stays_finished_when_hit() {
    let g = Grid::maze();
    let mut s = GameState { is_game_over: false, has_won: false, is_level_complete: true, current_level: 2 };
    s.enemy_bullet_step(&g, true, (3, 4), false);
    assert_eq!(s, GameState { is_game_over: true, has_won: false, is_level_complete: true, current_level: 2 });
}
