use stone_maze::game::{enemy_spawn_points, GameState};
use stone_maze::text::push_decimal;

fn state(over: bool, complete: bool, level: u32) -> GameState {
    GameState { is_game_over: over, has_won: false, is_level_complete: complete, current_level: level }
}

#[test]
fn starts_at_level_one() {
    let s = GameState::new();
    assert_eq!(s, state(false, false, 1));
    assert!(s.accepts_player_input());
}

#[test]
fn controls_pause_when_the_round_ends() {
    assert!(!state(true, false, 1).accepts_player_input());
    assert!(!state(false, true, 1).accepts_player_input());
}

#[test]
fn play_again_after_defeat_goes_back_to_level_one() {
    let mut s = state(true, false, 4);
    assert!(s.restart(true, false));
    assert_eq!(s, state(false, false, 1));
    assert!(s.accepts_player_input());
}

#[test]
fn next_level_after_finishing_one() {
    let mut s = state(false, true, 4);
    assert!(s.restart(false, true));
    assert_eq!(s, state(false, false, 5));
}

#[test]
fn finished_and_defeated_in_one_frame_goes_on() {
    let mut s = state(true, true, 2);
    assert!(s.restart(true, false));
    assert_eq!(s, state(false, false, 3));
}

#[test]
fn wrong_key_does_not_restart() {
    let mut s = state(true, false, 3);
    assert!(!s.restart(false, true));
    assert_eq!(s, state(true, false, 3));
    let mut s = state(false, true, 3);
    assert!(!s.restart(true, false));
    assert_eq!(s, state(false, true, 3));
    let mut s = state(false, false, 3);
    assert!(!s.restart(true, true));
    assert_eq!(s, state(false, false, 3));
}

#[test]
fn reset_keeps_the_level() {
    let mut s = GameState { is_game_over: true, has_won: true, is_level_complete: true, current_level: 7 };
    s.reset();
    assert_eq!(s, state(false, false, 7));
}

#[test]
fn enemies_per_level() {
    assert_eq!(enemy_spawn_points(0), vec![]);
    assert_eq!(enemy_spawn_points(1), vec![(2, 2)]);
    assert_eq!(enemy_spawn_points(3), vec![(2, 2), (8, 6), (4, 4)]);
    assert_eq!(enemy_spawn_points(5), vec![(2, 2), (8, 6), (4, 4), (6, 8), (3, 7)]);
    assert_eq!(enemy_spawn_points(9), vec![(2, 2), (8, 6), (4, 4), (6, 8), (3, 7)]);
    assert_eq!(enemy_spawn_points(u32::MAX).len(), 5);
}

#[test]
fn restart_after_defeat_brings_one_enemy() {
    let mut s = state(true, false, 5);
    s.restart(true, false);
    assert_eq!(enemy_spawn_points(s.current_level), vec![(2, 2)]);
}

#[test]
fn level_label_text() {
    assert_eq!(state(false, false, 1).level_label(), "Level 1");
    assert_eq!(state(false, false, 12).level_label(), "Level 12");
    assert_eq!(state(false, false, 4_000_000_000).level_label(), "Level 4000000000");
}

#[test]
fn decimal_numerals() {
    for n in [0u32, 7, 10, 99, 100, 305, 65536, u32::MAX] {
        let mut s = String::from("n=");
        push_decimal(&mut s, n);
        assert_eq!(s, format!("n={}", n));
    }
}

#[test]
fn defeat_banner() {
    let b = state(true, false, 3).banner().unwrap();
    assert_eq!(b.text, "Game Over\nPress P to Play Again\nPress Q to Exit");
    assert!(b.is_game_over);
}

#[test]
fn level_finished_banner() {
    let b = state(false, true, 3).banner().unwrap();
    assert_eq!(b.text, "You finished level 3!\nPress S to start level 4\nPress Q to quit");
    assert!(!b.is_game_over);
}

#[test]
fn no_banner_while_playing() {
    assert!(state(false, false, 3).banner().is_none());
}

#[test]
fn hud_adds_only_what_is_missing() {
    let s = state(false, true, 2);
    let u = s.hud_update(false, false);
    assert_eq!(u.level_label.unwrap(), "Level 2");
    assert_eq!(u.banner.unwrap().text, "You finished level 2!\nPress S to start level 3\nPress Q to quit");
    let u = s.hud_update(true, true);
    assert!(u.level_label.is_none());
    assert!(u.banner.is_none());
    let u = state(false, false, 2).hud_update(true, false);
    assert!(u.level_label.is_none());
    assert!(u.banner.is_none());
}

#[test]
fn hud_at_the_last_level_with_banner_shown() {
    let s = state(false, true, u32::MAX);
    let u = s.hud_update(false, true);
    assert_eq!(u.level_label.unwrap(), format!("Level {}", u32::MAX));
    assert!(u.banner.is_none());
}

#[test]
fn enemies_hold_fire_after_defeat() {
    assert!(state(false, false, 1).enemies_may_fire());
    assert!(state(false, true, 1).enemies_may_fire());
    assert!(!state(true, false, 1).enemies_may_fire());
}
