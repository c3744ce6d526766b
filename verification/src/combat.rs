//! Per-frame decisions for projectiles and enemies.  The caller measures
//! distances and times; these functions decide what happens.
use vstd::prelude::*;
use crate::grid::Grid;
use crate::game::GameState;

verus! {

/// The first index whose flag is set.
pub open spec fn first_set(flags: Seq<bool>) -> Option<usize> {
    if exists|i: int| 0 <= i < flags.len() && flags[i] {
        Some(choose|i: usize| i < flags.len() && flags[i as int] && forall|k: int| 0 <= k < i ==> !flags[k])
    } else {
        None
    }
}

/// Index of the first enemy that a player's bullet reaches, in the order
/// the enemies are listed.
pub fn first_hit(in_range: &Vec<bool>) -> (r: Option<usize>)
    ensures
        r is None <==> forall|i: int| 0 <= i < in_range@.len() ==> !in_range@[i],
        r matches Some(i) ==> {
            &&& i < in_range@.len()
            &&& in_range@[i as int]
            &&& forall|k: int| 0 <= k < i ==> !in_range@[k]
        },
{
    let n: usize = in_range.len();
    let mut i: usize = 0;
    while i < n
        invariant
            n == in_range@.len(),
            i <= n,
            forall|k: int| 0 <= k < i ==> !in_range@[k],
        decreases n - i,
    {
        if in_range[i] {
            return Some(i);
        }
        i = i + 1;
    }
    None
}

/// What becomes of a player's bullet this frame.
#[derive(Clone, Copy, Debug, PartialEq, Eq, Structural)]
pub struct BulletOutcome {
    /// The enemy it hit, which is removed with a burst of sparks where it stood.
    pub killed: Option<usize>,
    /// A burst of sparks goes off where the bullet is (it struck a wall,
    /// the floor or the ceiling).
    pub burst_at_bullet: bool,
    /// It advances to its next position and ages by the frame's time.
    pub moves: bool,
    /// It is removed, with its light, at the end of the frame.
    pub despawns: bool,
}

/// What a player's bullet does this frame.  `in_range` tells, for each
/// living enemy in order, whether the bullet is within hitting distance;
/// `next_cell` is the tile of its next position; `leaves_room` whether that
/// position is at or beyond the floor or ceiling; `expires` whether its
/// lifetime runs out once it ages by this frame's time.
pub open spec fn bullet_outcome(grid: Grid, in_range: Seq<bool>, next_cell: (usize, usize), leaves_room: bool, expires: bool) -> BulletOutcome {
    let killed = first_set(in_range);
    let blocked = grid.wall_at(next_cell.0 as int, next_cell.1 as int) || leaves_room;
    BulletOutcome {
        killed,
        burst_at_bullet: blocked,
        moves: !blocked,
        despawns: killed is Some || blocked || expires,
    }
}

/// The decision whether an enemy fires this frame: its cooldown has run out
/// and none of the cells sampled along the line to the player is a wall.
pub fn enemy_fires(grid: &Grid, cooldown_over: bool, sight_cells: &Vec<(usize, usize)>) -> (r: bool)
    ensures
        r == (cooldown_over && !grid.any_wall(sight_cells@)),
{
    cooldown_over && grid.has_line_of_sight(sight_cells)
}

/// How an enemy moves this frame.
#[derive(Clone, Copy, Debug, PartialEq, Eq, Structural)]
pub enum EnemyMove {
    /// Keep going.
    Advance,
    /// Stand still and turn a quarter to the left.
    TurnLeft,
    /// Stand still and turn a quarter to the right.
    TurnRight,
}

/// An enemy whose path ahead touches a wall turns, to the left when
/// `turn_left` and to the right otherwise; any other enemy advances.
pub fn steer(grid: &Grid, probe_cells: &Vec<(usize, usize)>, turn_left: bool) -> (r: EnemyMove)
    ensures
        r == (if !grid.any_wall(probe_cells@) {
            EnemyMove::Advance
        } else if turn_left {
            EnemyMove::TurnLeft
        } else {
            EnemyMove::TurnRight
        }),
{
    if grid.hits_wall(probe_cells) {
        if turn_left { EnemyMove::TurnLeft } else { EnemyMove::TurnRight }
    } else {
        EnemyMove::Advance
    }
}

/// A fair coin: `rand::random::<bool>()` from the thread-local generator.
/// Nothing is promised of its value.
#[verifier::external_body]
fn coin_flip() -> bool {
    rand::random::<bool>()
}

/// How an enemy moves this frame: it advances while its path ahead is clear,
/// and turns left or right at random when the path touches a wall.
pub fn steer_enemy(grid: &Grid, probe_cells: &Vec<(usize, usize)>) -> (r: EnemyMove)
    ensures
        (r == EnemyMove::Advance) <==> !grid.any_wall(probe_cells@),
{
    if grid.hits_wall(probe_cells) {
        steer(grid, probe_cells, coin_flip())
    } else {
        EnemyMove::Advance
    }
}

/// What becomes of an enemy's bullet this frame.
#[derive(Clone, Copy, Debug, PartialEq, Eq, Structural)]
pub struct ShotOutcome {
    /// It advances to its next position and ages by the frame's time.
    pub moves: bool,
    /// It is removed at the end of the frame.
    pub despawns: bool,
}

/// The round after a player's bullet step: hitting the only remaining enemy
/// finishes the level; nothing else changes.
pub open spec fn after_bullet(s: GameState, in_range: Seq<bool>) -> GameState {
    GameState { is_level_complete: s.is_level_complete || (first_set(in_range) is Some && in_range.len() == 1), ..s }
}

/// The round after an enemy's bullet step: a hit on the player loses the
/// round; nothing else changes.
pub open spec fn after_enemy_bullet(s: GameState, hits_player: bool) -> GameState {
    GameState { is_game_over: s.is_game_over || hits_player, ..s }
}

/// Projectiles can only end a round, never resume one or change the level:
/// once lost or finished, a round stays so until a restart.
pub proof fn lemma_projectiles_only_end_rounds(s: GameState, in_range: Seq<bool>, hits_player: bool)
    ensures
        after_bullet(s, in_range).current_level == s.current_level,
        after_enemy_bullet(s, hits_player).current_level == s.current_level,
        s.is_game_over ==> after_bullet(s, in_range).is_game_over && after_enemy_bullet(s, hits_player).is_game_over,
        s.is_level_complete ==> after_bullet(s, in_range).is_level_complete
            && after_enemy_bullet(s, hits_player).is_level_complete,
        !s.accepts_input() ==> !after_bullet(s, in_range).accepts_input() && !after_enemy_bullet(s, hits_player).accepts_input(),
{
}

/// Shooting an enemy finishes the level exactly when it was the only enemy
/// alive: with two or more enemies listed a bullet step never finishes the
/// level, and with exactly one it finishes it exactly when that enemy is in
/// range.  The first enemy in range is the one killed.
pub proof fn lemma_level_ends_with_last_enemy(s: GameState, in_range: Seq<bool>)
    requires
        in_range.len() <= usize::MAX,
    ensures
        in_range.len() != 1 ==> after_bullet(s, in_range).is_level_complete == s.is_level_complete,
        in_range.len() == 1 ==> after_bullet(s, in_range).is_level_complete == (s.is_level_complete || in_range[0]),
        first_set(in_range) matches Some(k) ==> k < in_range.len() && in_range[k as int]
            && forall|j: int| 0 <= j < k ==> !in_range[j],
        first_set(in_range) is None <==> forall|j: int| 0 <= j < in_range.len() ==> !in_range[j],
{
    if exists|i: int| 0 <= i < in_range.len() && in_range[i] {
        let i = choose|i: int| 0 <= i < in_range.len() && in_range[i];
        lemma_first_index_exists(in_range, i);
    }
    if in_range.len() == 1 && in_range[0] {
        assert(exists|i: int| 0 <= i < in_range.len() && in_range[i]);
    }
}

/// Below any set flag there is a first set flag.
proof fn lemma_first_index_exists(flags: Seq<bool>, i: int)
    requires
        0 <= i < flags.len(),
        flags.len() <= usize::MAX,
        flags[i],
    ensures
        exists|c: usize| c < flags.len() && flags[c as int] && forall|k: int| 0 <= k < c ==> !flags[k],
    decreases i,
{
    if exists|k: int| 0 <= k < i && flags[k] {
        let k = choose|k: int| 0 <= k < i && flags[k];
        lemma_first_index_exists(flags, k);
    } else {
        assert(flags[(i as usize) as int]);
    }
}

/// A sampled path or sight line is blocked exactly when one of its samples
/// is: no samples never block, a single sample blocks exactly when its cell
/// is a wall, and joining two sample lists blocks exactly when either does.
pub proof fn lemma_blocking_is_per_sample(grid: Grid, a: Seq<(usize, usize)>, b: Seq<(usize, usize)>, c: (usize, usize))
    ensures
        !grid.any_wall(Seq::<(usize, usize)>::empty()),
        grid.any_wall(seq![c]) == grid.wall_at(c.0 as int, c.1 as int),
        grid.any_wall(a + b) == (grid.any_wall(a) || grid.any_wall(b)),
        forall|i: int| 0 <= i < a.len() && #[trigger] grid.wall_at(a[i].0 as int, a[i].1 as int) ==> grid.any_wall(a),
{
    let one = seq![c];
    if grid.wall_at(c.0 as int, c.1 as int) {
        assert(grid.wall_at(one[0].0 as int, one[0].1 as int));
    }
    let ab = a + b;
    if grid.any_wall(a) {
        let i = choose|i: int| 0 <= i < a.len() && #[trigger] grid.wall_at(a[i].0 as int, a[i].1 as int);
        assert(ab[i] == a[i]);
    }
    if grid.any_wall(b) {
        let i = choose|i: int| 0 <= i < b.len() && #[trigger] grid.wall_at(b[i].0 as int, b[i].1 as int);
        assert(ab[a.len() + i] == b[i]);
    }
    if grid.any_wall(ab) {
        let i = choose|i: int| 0 <= i < ab.len() && #[trigger] grid.wall_at(ab[i].0 as int, ab[i].1 as int);
        if i < a.len() {
            assert(ab[i] == a[i]);
        } else {
            assert(ab[i] == b[i - a.len()]);
        }
    }
}

impl GameState {
    /// Advances a player's bullet by one frame (see `bullet_outcome`).
    /// Hitting the last remaining enemy finishes the level.
    pub fn bullet_step(
        &mut self,
        grid: &Grid,
        in_range: &Vec<bool>,
        next_cell: (usize, usize),
        leaves_room: bool,
        expires: bool,
    ) -> (r: BulletOutcome)
        ensures
            r == bullet_outcome(*grid, in_range@, next_cell, leaves_room, expires),
            *final(self) == after_bullet(*old(self), in_range@),
            r.killed matches Some(k) ==> k < in_range@.len() && in_range@[k as int]
                && forall|j: int| 0 <= j < k ==> !in_range@[j],
            r.killed is None ==> forall|j: int| 0 <= j < in_range@.len() ==> !in_range@[j],
            final(self).is_level_complete
                == (old(self).is_level_complete || (in_range@.len() == 1 && in_range@[0])),
            final(self).is_game_over == old(self).is_game_over,
            final(self).current_level == old(self).current_level,
    {
        let killed = first_hit(in_range);
        proof {
            if killed is Some {
                let i = killed->0;
                assert(exists|j: int| 0 <= j < in_range@.len() && in_range@[j]) by {
                    assert(in_range@[i as int]);
                }
                let c = choose|c: usize| c < in_range@.len() && in_range@[c as int] && forall|k: int| 0 <= k < c ==> !in_range@[k];
                assert(c == i) by {
                    if c < i {
                        assert(!in_range@[c as int]);
                    } else if i < c {
                        assert(!in_range@[i as int]);
                    }
                }
            }
        }
        if killed.is_some() && in_range.len() == 1 {
            self.is_level_complete = true;
        }
        let (x, z) = next_cell;
        let blocked = grid.is_wall_at_position(x, z) || leaves_room;
        BulletOutcome {
            killed,
            burst_at_bullet: blocked,
            moves: !blocked,
            despawns: killed.is_some() || blocked || expires,
        }
    }

    /// Advances an enemy's bullet by one frame.  `hits_player` tells whether
    /// it is within hitting distance of the player, `next_cell` is the tile
    /// of its next position, `expires` whether its lifetime runs out once it
    /// ages by this frame's time.  Hitting the player loses the round and
    /// removes the bullet; striking a wall removes it; otherwise it moves,
    /// and is removed when its lifetime runs out.
    pub fn enemy_bullet_step(&mut self, grid: &Grid, hits_player: bool, next_cell: (usize, usize), expires: bool) -> (r: ShotOutcome)
        ensures
            *final(self) == after_enemy_bullet(*old(self), hits_player),
            r.moves == (!hits_player && !grid.wall_at(next_cell.0 as int, next_cell.1 as int)),
            r.despawns == (!r.moves || expires),
    {
        if hits_player {
            self.is_game_over = true;
            return ShotOutcome { moves: false, despawns: true };
        }
        let (x, z) = next_cell;
        if grid.is_wall_at_position(x, z) {
            return ShotOutcome { moves: false, despawns: true };
        }
        ShotOutcome { moves: true, despawns: expires }
    }
}

} // verus!
