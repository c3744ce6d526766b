use stone_maze::controls::{input_direction, CursorState, MoveKeys};

fn keys(forward: bool, back: bool, left: bool, right: bool) -> MoveKeys {
    MoveKeys { forward, back, left, right }
}

#[test]
fn each_key_moves_one_way() {
    assert_eq!(input_direction(keys(false, false, false, false)), (0, 0));
    assert_eq!(input_direction(keys(true, false, false, false)), (0, -1));
    assert_eq!(input_direction(keys(false, true, false, false)), (0, 1));
    assert_eq!(input_direction(keys(false, false, true, false)), (-1, 0));
    assert_eq!(input_direction(keys(false, false, false, true)), (1, 0));
}

#[test]
fn keys_combine_and_cancel() {
    assert_eq!(input_direction(keys(true, false, false, true)), (1, -1));
    assert_eq!(input_direction(keys(true, true, false, false)), (0, 0));
    assert_eq!(input_direction(keys(true, true, true, true)), (0, 0));
    assert_eq!(input_direction(keys(false, true, true, false)), (-1, 1));
}

#[test]
fn cursor_capture_and_release() {
    let free = CursorState { locked: false, visible: true };
    let held = CursorState { locked: true, visible: false };
    assert_eq!(CursorState::captured(), held);
    assert_eq!(free.after_input(true, false), held);
    assert_eq!(held.after_input(false, true), free);
    assert_eq!(held.after_input(true, true), free);
    assert_eq!(held.after_input(false, false), held);
    assert_eq!(free.after_input(false, false), free);
}
