use stone_maze::minimap::{plan_minimap, DotAction, DotKind};

#[test]
fn markers_follow_player_and_enemies_in_order() {
    let dots = vec![DotKind::Player, DotKind::Enemy, DotKind::Enemy];
    let plan = plan_minimap(&dots, 2, true);
    assert_eq!(plan.actions, vec![DotAction::FollowPlayer, DotAction::FollowEnemy(0), DotAction::FollowEnemy(1)]);
    assert!(plan.new_enemy_dots.is_empty());
}

#[test]
fn surplus_markers_are_removed() {
    let dots = vec![DotKind::Enemy, DotKind::Player, DotKind::Enemy, DotKind::Enemy];
    let plan = plan_minimap(&dots, 1, false);
    assert_eq!(
        plan.actions,
        vec![DotAction::FollowEnemy(0), DotAction::Keep, DotAction::Remove, DotAction::Remove]
    );
    assert!(plan.new_enemy_dots.is_empty());
}

#[test]
fn new_enemies_get_new_markers() {
    let dots = vec![DotKind::Player, DotKind::Enemy];
    let plan = plan_minimap(&dots, 4, true);
    assert_eq!(plan.actions, vec![DotAction::FollowPlayer, DotAction::FollowEnemy(0)]);
    assert_eq!(plan.new_enemy_dots, vec![1, 2, 3]);
}

#[test]
fn every_enemy_has_exactly_one_marker() {
    let dots = vec![DotKind::Enemy, DotKind::Player, DotKind::Enemy, DotKind::Enemy, DotKind::Player];
    for enemies in 0..7usize {
        let plan = plan_minimap(&dots, enemies, true);
        for e in 0..enemies {
            let followed = plan.actions.iter().filter(|a| **a == DotAction::FollowEnemy(e)).count();
            let added = plan.new_enemy_dots.iter().filter(|n| **n == e).count();
            assert_eq!(followed + added, 1, "enemy {} of {}", e, enemies);
        }
    }
}

#[test]
fn no_markers_no_enemies() {
    let plan = plan_minimap(&vec![], 0, false);
    assert!(plan.actions.is_empty());
    assert!(plan.new_enemy_dots.is_empty());
}
