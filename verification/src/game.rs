//! Round and level bookkeeping: losing, finishing a level, starting over,
//! how many enemies a level brings, and the texts shown on screen.
use vstd::prelude::*;
use crate::text::{decimal, push_decimal};

verus! {

/// Where enemies appear when a level starts, as `(x, z)` grid-line
/// coordinates in tiles; a level brings one enemy per entry, in this order,
/// up to the length of the table.
pub open spec fn spawn_table() -> Seq<(usize, usize)> {
    seq![(2, 2), (8, 6), (4, 4), (6, 8), (3, 7)]
}

/// How many enemies level `level` brings.
pub open spec fn enemy_count(level: nat) -> nat {
    if level < spawn_table().len() { level } else { spawn_table().len() }
}

/// The spawn points of level `level`: the first `enemy_count(level)` entries
/// of the table.
pub open spec fn spawn_points(level: nat) -> Seq<(usize, usize)> {
    spawn_table().take(enemy_count(level) as int)
}

/// The spawn points of level `level`.
pub fn enemy_spawn_points(level: u32) -> (r: Vec<(usize, usize)>)
    ensures
        r@ == spawn_points(level as nat),
        r@.len() == (if level < 5 { level as nat } else { 5 }),
        forall|i: int| 0 <= i < r@.len() ==> #[trigger] r@[i] == spawn_table()[i],
{
    let table: Vec<(usize, usize)> = vec![(2, 2), (8, 6), (4, 4), (6, 8), (3, 7)];
    assert(table@ == spawn_table());
    let mut out: Vec<(usize, usize)> = Vec::new();
    let mut i: usize = 0;
    while i < table.len() && (i as u64) < (level as u64)
        invariant
            table@ == spawn_table(),
            i <= table@.len(),
            i <= level,
            out@ == spawn_table().take(i as int),
        decreases table@.len() - i,
    {
        out.push(table[i]);
        i = i + 1;
        assert(out@ =~= spawn_table().take(i as int));
    }
    out
}

/// The state of the current round.
#[derive(Clone, Copy, Debug, PartialEq, Eq, Structural)]
pub struct GameState {
    /// The player was hit.
    pub is_game_over: bool,
    /// Kept for a win screen; nothing sets it.
    pub has_won: bool,
    /// The last enemy of the level was shot.
    pub is_level_complete: bool,
    /// The level being played, from 1.
    pub current_level: u32,
}

/// A screen message that ends a round.
#[derive(Debug)]
pub struct Banner {
    pub text: String,
    /// `true` for the defeat message (shown in red), `false` for the
    /// level-finished message (shown in green).
    pub is_game_over: bool,
}

/// What the on-screen texts need this frame: texts to add, if any.
#[derive(Debug)]
pub struct HudUpdate {
    pub level_label: Option<String>,
    pub banner: Option<Banner>,
}

/// The defeat message.
pub open spec fn game_over_text() -> Seq<char> {
    "Game Over\nPress P to Play Again\nPress Q to Exit"@
}

/// The message after finishing level `level`.
pub open spec fn level_finished_text(level: nat) -> Seq<char> {
    "You finished level "@ + decimal(level) + "!\nPress S to start level "@ + decimal(level + 1)
        + "\nPress Q to quit"@
}

/// The level label.
pub open spec fn level_label_text(level: nat) -> Seq<char> {
    "Level "@ + decimal(level)
}

impl GameState {
    /// The state at start-up: level 1, nothing lost or finished.
    pub open spec fn initial() -> GameState {
        GameState { is_game_over: false, has_won: false, is_level_complete: false, current_level: 1 }
    }

    /// Whether the player's movement, looking around and shooting are live:
    /// the round is neither lost nor finished.
    pub open spec fn accepts_input(self) -> bool {
        !self.is_game_over && !self.is_level_complete
    }

    /// Whether the keys pressed this frame start a new round: P after a
    /// defeat, S after finishing a level.
    pub open spec fn restart_requested(self, play_again: bool, next_level: bool) -> bool {
        (self.is_game_over && play_again) || (self.is_level_complete && next_level)
    }

    /// The state a restart leads to: the next level after finishing one,
    /// level 1 otherwise, with every round flag cleared.
    pub open spec fn restarted(self) -> GameState {
        GameState {
            is_game_over: false,
            has_won: false,
            is_level_complete: false,
            current_level: if self.is_level_complete { (self.current_level + 1) as u32 } else { 1 },
        }
    }

    /// The message that ends the current round, if it has ended.
    pub open spec fn banner_text(self) -> Option<Seq<char>> {
        if self.is_game_over {
            Some(game_over_text())
        } else if self.is_level_complete {
            Some(level_finished_text(self.current_level as nat))
        } else {
            None
        }
    }

    /// The state at start-up.
    pub fn new() -> (s: GameState)
        ensures
            s == GameState::initial(),
    {
        GameState { is_game_over: false, has_won: false, is_level_complete: false, current_level: 1 }
    }

    /// Whether enemies may fire this frame: not once the round is lost.
    pub fn enemies_may_fire(&self) -> (r: bool)
        ensures
            r == !self.is_game_over,
    {
        !self.is_game_over
    }

    /// Whether the player's controls are live.
    pub fn accepts_player_input(&self) -> (r: bool)
        ensures
            r == self.accepts_input(),
    {
        !self.is_game_over && !self.is_level_complete
    }

    /// Clears the round flags and keeps the level.
    pub fn reset(&mut self)
        ensures
            final(self).current_level == old(self).current_level,
            !final(self).is_game_over,
            !final(self).has_won,
            !final(self).is_level_complete,
    {
        self.is_game_over = false;
        self.has_won = false;
        self.is_level_complete = false;
    }

    /// Starts a new round when the keys pressed call for one: after a defeat
    /// P starts over at level 1, after finishing a level S goes on to the
    /// next.  Returns whether a new round starts; the caller then clears the
    /// field and spawns `enemy_spawn_points(current_level)`.
    pub fn restart(&mut self, play_again_pressed: bool, next_level_pressed: bool) -> (r: bool)
        requires
            old(self).restart_requested(play_again_pressed, next_level_pressed) && old(self).is_level_complete
                ==> old(self).current_level < u32::MAX,
        ensures
            r == old(self).restart_requested(play_again_pressed, next_level_pressed),
            r ==> *final(self) == old(self).restarted(),
            !r ==> *final(self) == *old(self),
            r ==> (old(self).is_game_over && play_again_pressed) || (old(self).is_level_complete && next_level_pressed),
            !old(self).is_game_over && !old(self).is_level_complete ==> !r && *final(self) == *old(self),
    {
        if (self.is_game_over && play_again_pressed) || (self.is_level_complete && next_level_pressed) {
            if self.is_level_complete {
                self.current_level = self.current_level + 1;
            } else {
                self.current_level = 1;
            }
            self.reset();
            true
        } else {
            false
        }
    }

    /// The level label, such as "Level 3".
    pub fn level_label(&self) -> (r: String)
        ensures
            r@ == level_label_text(self.current_level as nat),
    {
        let mut s = String::from_str("Level ");
        proof {
            reveal_strlit("Level ");
        }
        push_decimal(&mut s, self.current_level);
        s
    }

    /// The message that ends the current round, if it has ended.
    pub fn banner(&self) -> (r: Option<Banner>)
        requires
            !self.is_game_over && self.is_level_complete ==> self.current_level < u32::MAX,
        ensures
            r is Some <==> self.banner_text() is Some,
            r matches Some(b) ==> {
                &&& b.text@ == self.banner_text()->0
                &&& b.is_game_over == self.is_game_over
            },
    {
        if self.is_game_over {
            let text = String::from_str("Game Over\nPress P to Play Again\nPress Q to Exit");
            Some(Banner { text, is_game_over: true })
        } else if self.is_level_complete {
            let mut text = String::from_str("You finished level ");
            push_decimal(&mut text, self.current_level);
            text.append("!\nPress S to start level ");
            push_decimal(&mut text, self.current_level + 1);
            text.append("\nPress Q to quit");
            Some(Banner { text, is_game_over: false })
        } else {
            None
        }
    }

    /// The texts to add this frame: the level label when none is shown yet
    /// (it is never redrawn afterwards), and the round-ending message when
    /// the round has ended and none is shown yet.
    pub fn hud_update(&self, label_shown: bool, banner_shown: bool) -> (r: HudUpdate)
        requires
            !banner_shown && !self.is_game_over && self.is_level_complete ==> self.current_level < u32::MAX,
        ensures
            r.level_label is Some <==> !label_shown,
            r.level_label matches Some(t) ==> t@ == level_label_text(self.current_level as nat),
            r.banner is Some <==> (!banner_shown && self.banner_text() is Some),
            r.banner matches Some(b) ==> {
                &&& b.text@ == self.banner_text()->0
                &&& b.is_game_over == self.is_game_over
            },
    {
        let level_label = if label_shown { None } else { Some(self.level_label()) };
        let banner = if banner_shown { None } else { self.banner() };
        HudUpdate { level_label, banner }
    }
}

/// A new round can always be played: after a defeat it is level 1 with a
/// single enemy at the first spawn point; after finishing level n it is
/// level n + 1 with one enemy per level, up to the size of the spawn table.
pub proof fn lemma_new_round(s: GameState, play_again: bool, next_level: bool)
    requires
        s.restart_requested(play_again, next_level),
        s.is_level_complete ==> s.current_level < u32::MAX,
    ensures
        s.restarted().accepts_input(),
        !s.is_level_complete ==> s.restarted().current_level == 1 && spawn_points(1) == seq![(2usize, 2usize)],
        s.is_level_complete ==> s.restarted().current_level == s.current_level + 1,
        s.is_level_complete ==> spawn_points(s.restarted().current_level as nat).len()
            == if s.current_level + 1 < 5 { s.current_level + 1 } else { 5 },
{
    assert(spawn_points(1) =~= seq![(2usize, 2usize)]);
}

/// Only a defeat answered with P or a finished level answered with S starts
/// a new round: a round in progress is never restarted, whatever the keys.
pub proof fn lemma_restart_only_after_round_end(s: GameState, play_again: bool, next_level: bool)
    ensures
        s.restart_requested(play_again, next_level)
            ==> (s.is_game_over && play_again) || (s.is_level_complete && next_level),
        (s.is_game_over && play_again) || (s.is_level_complete && next_level)
            ==> s.restart_requested(play_again, next_level),
        !s.is_game_over && !s.is_level_complete ==> !s.restart_requested(play_again, next_level),
{
}

} // verus!
