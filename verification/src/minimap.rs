//! Bookkeeping for the minimap's markers: which marker follows which body,
//! which markers go, and which enemies need a new one.
use vstd::prelude::*;

verus! {

/// What a minimap marker stands for.
#[derive(Clone, Copy, Debug, PartialEq, Eq, Structural)]
pub enum DotKind {
    Player,
    Enemy,
}

/// What happens to a marker this frame.
#[derive(Clone, Copy, Debug, PartialEq, Eq, Structural)]
pub enum DotAction {
    /// Moves to the player's position.
    FollowPlayer,
    /// Stays as it is.
    Keep,
    /// Moves to the position of the enemy with this index.
    FollowEnemy(usize),
    /// Is removed.
    Remove,
}

/// The plan for the markers this frame: one action per existing marker, in
/// order, and the enemies that get a new marker.
#[derive(Debug)]
pub struct MinimapPlan {
    pub actions: Vec<DotAction>,
    pub new_enemy_dots: Vec<usize>,
}

/// Number of enemy markers among the first `i` markers.
pub open spec fn enemy_dots_before(dots: Seq<DotKind>, i: int) -> nat
    decreases i,
{
    if i <= 0 {
        0
    } else {
        enemy_dots_before(dots, i - 1) + (if dots[i - 1] == DotKind::Enemy { 1nat } else { 0nat })
    }
}

/// The action for marker `i`: the player's marker follows the player when
/// there is one; the k-th enemy marker follows the k-th enemy, and goes when
/// there are no more enemies than k.
pub open spec fn dot_action(dots: Seq<DotKind>, i: int, enemies: nat, player_found: bool) -> DotAction {
    if dots[i] == DotKind::Player {
        if player_found { DotAction::FollowPlayer } else { DotAction::Keep }
    } else if enemy_dots_before(dots, i) < enemies {
        DotAction::FollowEnemy(enemy_dots_before(dots, i) as usize)
    } else {
        DotAction::Remove
    }
}

/// Number of enemies that already have a marker.
pub open spec fn enemies_marked(dots: Seq<DotKind>, enemies: nat) -> nat {
    let k = enemy_dots_before(dots, dots.len() as int);
    if k < enemies { k } else { enemies }
}

/// The enemies that get a new marker: those past the ones already marked.
pub open spec fn new_dots(dots: Seq<DotKind>, enemies: nat) -> Seq<usize> {
    Seq::new((enemies - enemies_marked(dots, enemies)) as nat, |j: int| (enemies_marked(dots, enemies) + j) as usize)
}

/// Plans this frame's markers, given the existing markers in order, the
/// number of living enemies and whether the player was found.
pub fn plan_minimap(dots: &Vec<DotKind>, enemies: usize, player_found: bool) -> (r: MinimapPlan)
    ensures
        r.actions@.len() == dots@.len(),
        forall|i: int| 0 <= i < dots@.len() ==> #[trigger] r.actions@[i] == dot_action(dots@, i, enemies as nat, player_found),
        r.new_enemy_dots@ == new_dots(dots@, enemies as nat),
        forall|i: int| 0 <= i < dots@.len() && dots@[i] == DotKind::Player ==>
            #[trigger] r.actions@[i] == (if player_found { DotAction::FollowPlayer } else { DotAction::Keep }),
{
    let n: usize = dots.len();
    let mut actions: Vec<DotAction> = Vec::new();
    let mut seen: usize = 0;
    let mut i: usize = 0;
    while i < n
        invariant
            n == dots@.len(),
            i <= n,
            seen == enemy_dots_before(dots@, i as int),
            seen <= i,
            actions@.len() == i,
            forall|k: int| 0 <= k < i ==> #[trigger] actions@[k] == dot_action(dots@, k, enemies as nat, player_found),
        decreases n - i,
    {
        let action = match dots[i] {
            DotKind::Player => if player_found { DotAction::FollowPlayer } else { DotAction::Keep },
            DotKind::Enemy => if seen < enemies { DotAction::FollowEnemy(seen) } else { DotAction::Remove },
        };
        actions.push(action);
        if dots[i] == DotKind::Enemy {
            seen = seen + 1;
        }
        i = i + 1;
    }
    let marked: usize = if seen < enemies { seen } else { enemies };
    let mut new_enemy_dots: Vec<usize> = Vec::new();
    let mut e: usize = marked;
    while e < enemies
        invariant
            marked <= e <= enemies,
            marked == enemies_marked(dots@, enemies as nat),
            new_enemy_dots@ =~= new_dots(dots@, enemies as nat).take((e - marked) as int),
        decreases enemies - e,
    {
        new_enemy_dots.push(e);
        e = e + 1;
    }
    assert(new_enemy_dots@ =~= new_dots(dots@, enemies as nat));
    MinimapPlan { actions, new_enemy_dots }
}

/// The count of enemy markers grows along the list, by one past each enemy
/// marker.
proof fn lemma_count_grows(dots: Seq<DotKind>, i: int, j: int)
    requires
        0 <= i <= j <= dots.len(),
    ensures
        enemy_dots_before(dots, i) <= enemy_dots_before(dots, j),
        i < j && dots[i] == DotKind::Enemy ==> enemy_dots_before(dots, i) + 1 <= enemy_dots_before(dots, j),
    decreases j - i,
{
    if i < j {
        lemma_count_grows(dots, i, j - 1);
        if i == j - 1 {
            assert(enemy_dots_before(dots, j) == enemy_dots_before(dots, i) + (if dots[i] == DotKind::Enemy { 1nat } else { 0nat }));
        }
    }
}

/// Every count below the total is the count in front of some enemy marker.
proof fn lemma_count_reached(dots: Seq<DotKind>, j: int, e: nat)
    requires
        0 <= j <= dots.len(),
        e < enemy_dots_before(dots, j),
    ensures
        exists|i: int| 0 <= i < j && dots[i] == DotKind::Enemy && enemy_dots_before(dots, i) == e,
    decreases j,
{
    if e < enemy_dots_before(dots, j - 1) {
        lemma_count_reached(dots, j - 1, e);
        let i = choose|i: int| 0 <= i < j - 1 && dots[i] == DotKind::Enemy && enemy_dots_before(dots, i) == e;
        assert(0 <= i < j && dots[i] == DotKind::Enemy && enemy_dots_before(dots, i) == e);
    } else {
        assert(dots[j - 1] == DotKind::Enemy && enemy_dots_before(dots, j - 1) == e);
    }
}

/// After a plan, each living enemy is followed by exactly one marker: either
/// by an existing marker (and by no other) or by a new one.
pub proof fn lemma_each_enemy_marked_once(dots: Seq<DotKind>, enemies: usize, player_found: bool, e: usize)
    requires
        e < enemies,
    ensures
        (exists|i: int| 0 <= i < dots.len() && dot_action(dots, i, enemies as nat, player_found) == DotAction::FollowEnemy(e))
            != new_dots(dots, enemies as nat).contains(e),
        forall|i: int, j: int|
            0 <= i < j < dots.len() && dot_action(dots, i, enemies as nat, player_found) == DotAction::FollowEnemy(e)
                ==> dot_action(dots, j, enemies as nat, player_found) != DotAction::FollowEnemy(e),
{
    let len = dots.len() as int;
    let marked = enemies_marked(dots, enemies as nat);
    let nd = new_dots(dots, enemies as nat);
    if e < marked {
        lemma_count_reached(dots, len, e as nat);
        let i = choose|i: int| 0 <= i < len && dots[i] == DotKind::Enemy && enemy_dots_before(dots, i) == e;
        assert(dot_action(dots, i, enemies as nat, player_found) == DotAction::FollowEnemy(e));
        assert(!nd.contains(e)) by {
            if nd.contains(e) {
                let j = choose|j: int| 0 <= j < nd.len() && nd[j] == e;
                assert(nd[j] == (marked + j) as usize);
            }
        }
    } else {
        assert forall|i: int| 0 <= i < len implies dot_action(dots, i, enemies as nat, player_found) != DotAction::FollowEnemy(e) by {
            if dots[i] == DotKind::Enemy && enemy_dots_before(dots, i) < enemies {
                lemma_count_grows(dots, i, len);
            }
        }
        assert(nd[e - marked] == e);
    }
    assert forall|i: int, j: int|
        0 <= i < j < dots.len() && dot_action(dots, i, enemies as nat, player_found) == DotAction::FollowEnemy(e)
            implies dot_action(dots, j, enemies as nat, player_found) != DotAction::FollowEnemy(e) by {
        lemma_count_grows(dots, i, j);
    }
}

/// The player's marker follows the player whenever the player is found and
/// stays put otherwise, wherever it stands among the markers; enemy markers
/// only ever follow enemies or go.
pub proof fn lemma_player_marker_follows_player(dots: Seq<DotKind>, enemies: nat, player_found: bool, i: int)
    requires
        0 <= i < dots.len(),
    ensures
        dots[i] == DotKind::Player ==> dot_action(dots, i, enemies, player_found)
            == (if player_found { DotAction::FollowPlayer } else { DotAction::Keep }),
        dots[i] == DotKind::Enemy ==> (dot_action(dots, i, enemies, player_found) is FollowEnemy
            || dot_action(dots, i, enemies, player_found) is Remove),
{
}

} // verus!
