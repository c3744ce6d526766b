//! The player's keys and the mouse cursor.
use vstd::prelude::*;

verus! {

/// The movement keys held this frame (each either its letter or its arrow
/// key): forward (W or Up), back (S or Down), left (A or Left) and right
/// (D or Right).
#[derive(Clone, Copy, Debug, PartialEq, Eq, Structural)]
pub struct MoveKeys {
    pub forward: bool,
    pub back: bool,
    pub left: bool,
    pub right: bool,
}

/// 1 when the key is held, 0 otherwise.
pub open spec fn held(b: bool) -> int {
    if b { 1 } else { 0 }
}

/// The direction the keys ask for, before turning it with the view: the sum
/// of one unit step per key held, `(dx, dz)`, where forward is negative Z
/// and right is positive X.  Opposite keys cancel.
pub fn input_direction(keys: MoveKeys) -> (r: (i8, i8))
    ensures
        r.0 == held(keys.right) - held(keys.left),
        r.1 == held(keys.back) - held(keys.forward),
{
    let mut dx: i8 = 0;
    let mut dz: i8 = 0;
    if keys.forward {
        dz = dz - 1;
    }
    if keys.back {
        dz = dz + 1;
    }
    if keys.left {
        dx = dx - 1;
    }
    if keys.right {
        dx = dx + 1;
    }
    (dx, dz)
}

/// The state of the mouse cursor: held in the window, and shown.
#[derive(Clone, Copy, Debug, PartialEq, Eq, Structural)]
pub struct CursorState {
    pub locked: bool,
    pub visible: bool,
}

impl CursorState {
    /// Held in the window and hidden, for mouse look.
    pub fn captured() -> (r: CursorState)
        ensures
            r.locked && !r.visible,
    {
        CursorState { locked: true, visible: false }
    }

    /// The cursor after this frame's input: a left click captures it, Escape
    /// releases and shows it; when both happen, Escape wins; with neither it
    /// stays as it was.
    pub fn after_input(self, clicked: bool, escape_pressed: bool) -> (r: CursorState)
        ensures
            escape_pressed ==> r == (CursorState { locked: false, visible: true }),
            !escape_pressed && clicked ==> r == (CursorState { locked: true, visible: false }),
            !escape_pressed && !clicked ==> r == self,
    {
        let mut state = self;
        if clicked {
            state = CursorState::captured();
        }
        if escape_pressed {
            state = CursorState { locked: false, visible: true };
        }
        state
    }
}

} // verus!
