//! The wall faces that bound the solid tiles of a grid, and where each face
//! stands in the world.
use vstd::prelude::*;
use crate::grid::{Grid, MAZE_SIZE, maze_wall, tile_before};

verus! {

/// A side of a tile.  North faces positive Z (the next row), south faces
/// negative Z, east faces positive X (the next column), west negative X.
#[derive(Clone, Copy, Debug, PartialEq, Eq, Structural)]
pub enum WallSide {
    North,
    South,
    East,
    West,
}

/// The order in which the sides of one tile are visited: south, north, west, east.
pub open spec fn side_rank(side: WallSide) -> int {
    match side {
        WallSide::South => 0,
        WallSide::North => 1,
        WallSide::West => 2,
        WallSide::East => 3,
    }
}

/// The tile on the other side of `side` of tile `(x, z)`.
pub open spec fn neighbor(x: int, z: int, side: WallSide) -> (int, int) {
    match side {
        WallSide::North => (x, z + 1),
        WallSide::South => (x, z - 1),
        WallSide::East => (x + 1, z),
        WallSide::West => (x - 1, z),
    }
}

/// Whether `side` of tile `(x, z)` looks onto open space: the tile beyond it
/// is open, or lies off the grid.
pub open spec fn faces_open(g: Grid, x: int, z: int, side: WallSide) -> bool {
    !g.solid_tile(neighbor(x, z, side).0, neighbor(x, z, side).1)
}

/// One wall panel: the face `side` of tile `(x, z)`, on storey 0 (floor
/// height) or storey 1 (stacked on top of it).
#[derive(Clone, Copy, Debug, PartialEq, Eq, Structural)]
pub struct WallSegment {
    pub x: usize,
    pub z: usize,
    pub side: WallSide,
    pub storey: u8,
}

/// Whether the map calls for this panel: a face of a solid tile that looks
/// onto open space, on one of the two storeys.
pub open spec fn segment_wanted(g: Grid, s: WallSegment) -> bool {
    &&& g.solid_tile(s.x as int, s.z as int)
    &&& faces_open(g, s.x as int, s.z as int, s.side)
    &&& s.storey < 2
}

/// Whether panel `s` comes before side rank `rank` of tile `(x, z)` in
/// building order.
pub open spec fn segment_precedes(s: WallSegment, x: int, z: int, rank: int) -> bool {
    ||| tile_before((s.x as int, s.z as int), (x, z))
    ||| (s.x == x && s.z == z && side_rank(s.side) < rank)
}

/// Building order of panels: tiles in row-major order, then sides in rank
/// order, then the lower storey first.
pub open spec fn segment_before(a: WallSegment, b: WallSegment) -> bool {
    ||| tile_before((a.x as int, a.z as int), (b.x as int, b.z as int))
    ||| (a.x == b.x && a.z == b.z && side_rank(a.side) < side_rank(b.side))
    ||| (a.x == b.x && a.z == b.z && a.side == b.side && a.storey < b.storey)
}

/// Whether `out` holds exactly the wanted panels that come before side rank
/// `rank` of tile `(x, z)`, in building order.
pub open spec fn built_up_to(g: Grid, out: Seq<WallSegment>, x: int, z: int, rank: int) -> bool {
    &&& forall|i: int| 0 <= i < out.len() ==> #[trigger] segment_wanted(g, out[i])
    &&& forall|i: int| 0 <= i < out.len() ==> #[trigger] segment_precedes(out[i], x, z, rank)
    &&& forall|s: WallSegment| #[trigger] segment_wanted(g, s) && segment_precedes(s, x, z, rank) ==> out.contains(s)
    &&& forall|i: int, j: int| 0 <= i < j < out.len() ==> segment_before(out[i], out[j])
}

/// Whether `side` of the tile at `(x, z)` looks onto open space.
fn side_is_open(grid: &Grid, x: usize, z: usize, side: WallSide) -> (r: bool)
    requires
        grid.in_bounds(x as int, z as int),
    ensures
        r == faces_open(*grid, x as int, z as int, side),
{
    let w: usize = grid.width();
    let h: usize = grid.height();
    match side {
        WallSide::South => z == 0 || !grid.is_wall_at_position(x, z - 1),
        WallSide::North => z == h - 1 || !grid.is_wall_at_position(x, z + 1),
        WallSide::West => x == 0 || !grid.is_wall_at_position(x - 1, z),
        WallSide::East => x == w - 1 || !grid.is_wall_at_position(x + 1, z),
    }
}

/// Appends both storeys of `side` of the solid tile `(x, z)` when that side
/// looks onto open space.
fn build_side(grid: &Grid, out: &mut Vec<WallSegment>, x: usize, z: usize, side: WallSide)
    requires
        grid.solid_tile(x as int, z as int),
        built_up_to(*grid, old(out)@, x as int, z as int, side_rank(side)),
    ensures
        built_up_to(*grid, final(out)@, x as int, z as int, side_rank(side) + 1),
{
    let ghost before = out@;
    if side_is_open(grid, x, z, side) {
        let lower = WallSegment { x, z, side, storey: 0 };
        let upper = WallSegment { x, z, side, storey: 1 };
        out.push(lower);
        out.push(upper);
        let ghost n = out@.len();
        assert(out@[n - 2] == lower);
        assert(out@[n - 1] == upper);
        assert forall|s: WallSegment|
            #[trigger] segment_wanted(*grid, s) && segment_precedes(s, x as int, z as int, side_rank(side) + 1)
                implies out@.contains(s) by {
            if s.x == x && s.z == z && s.side == side {
                if s.storey == 0 {
                    assert(out@[n - 2] == s);
                } else {
                    assert(out@[n - 1] == s);
                }
            } else {
                assert(before.contains(s));
                let k = choose|k: int| 0 <= k < before.len() && before[k] == s;
                assert(out@[k] == s);
            }
        }
        assert forall|i: int| 0 <= i < out@.len() implies #[trigger] segment_wanted(*grid, out@[i]) by {
            if i < before.len() {
                assert(out@[i] == before[i]);
            }
        }
        assert forall|i: int, j: int| 0 <= i < j < out@.len() implies segment_before(out@[i], out@[j]) by {
            if j < before.len() {
                assert(out@[i] == before[i]);
                assert(out@[j] == before[j]);
            } else if i < before.len() {
                assert(out@[i] == before[i]);
                assert(segment_precedes(before[i], x as int, z as int, side_rank(side)));
            }
        }
        assert forall|i: int| 0 <= i < out@.len() implies #[trigger] segment_precedes(out@[i], x as int, z as int, side_rank(side) + 1) by {
            if i < before.len() {
                assert(out@[i] == before[i]);
                assert(segment_precedes(before[i], x as int, z as int, side_rank(side)));
            }
        }
    } else {
        assert forall|s: WallSegment|
            #[trigger] segment_wanted(*grid, s) && segment_precedes(s, x as int, z as int, side_rank(side) + 1)
                implies out@.contains(s) by {
            if s.x == x && s.z == z && s.side == side {
                assert(false);
            }
        }
        assert forall|i: int| 0 <= i < out@.len() implies #[trigger] segment_precedes(out@[i], x as int, z as int, side_rank(side) + 1) by {
            assert(segment_precedes(out@[i], x as int, z as int, side_rank(side)));
        }
    }
}

/// Once every side of tile `(x, z)` is done, or the tile is open, the panels
/// built are those before the next tile of the row.
proof fn lemma_next_tile(g: Grid, out: Seq<WallSegment>, x: int, z: int)
    requires
        built_up_to(g, out, x, z, 4) || (!g.solid_tile(x, z) && built_up_to(g, out, x, z, 0)),
    ensures
        built_up_to(g, out, x + 1, z, 0),
{
    assert forall|i: int| 0 <= i < out.len() implies #[trigger] segment_precedes(out[i], x + 1, z, 0) by {
        if built_up_to(g, out, x, z, 4) {
            assert(segment_precedes(out[i], x, z, 4));
        } else {
            assert(segment_precedes(out[i], x, z, 0));
        }
    }
    assert forall|s: WallSegment| #[trigger] segment_wanted(g, s) && segment_precedes(s, x + 1, z, 0) implies out.contains(s) by {
        if built_up_to(g, out, x, z, 4) {
            assert(segment_precedes(s, x, z, 4));
        } else {
            assert(segment_precedes(s, x, z, 0));
        }
    }
}

/// Past the last column of row `z`, the panels built are those before the
/// first tile of the next row.
proof fn lemma_next_row(g: Grid, out: Seq<WallSegment>, z: int)
    requires
        built_up_to(g, out, g.num_cols() as int, z, 0),
    ensures
        built_up_to(g, out, 0, z + 1, 0),
{
    assert forall|i: int| 0 <= i < out.len() implies #[trigger] segment_precedes(out[i], 0, z + 1, 0) by {
        assert(segment_precedes(out[i], g.num_cols() as int, z, 0));
    }
    assert forall|s: WallSegment| #[trigger] segment_wanted(g, s) && segment_precedes(s, 0, z + 1, 0) implies out.contains(s) by {
        assert(segment_precedes(s, g.num_cols() as int, z, 0));
    }
}

/// Every wall panel that the grid calls for, in building order: for each
/// solid tile in row-major order, each side that looks onto open space (or
/// off the grid), south, north, west, east; each such side twice, floor
/// storey first.
pub fn wall_segments(grid: &Grid) -> (r: Vec<WallSegment>)
    ensures
        forall|i: int| 0 <= i < r@.len() ==> #[trigger] segment_wanted(*grid, r@[i]),
        forall|s: WallSegment| #[trigger] segment_wanted(*grid, s) ==> r@.contains(s),
        forall|i: int, j: int| 0 <= i < j < r@.len() ==> segment_before(r@[i], r@[j]),
{
    let w: usize = grid.width();
    let h: usize = grid.height();
    let mut out: Vec<WallSegment> = Vec::new();
    let mut z: usize = 0;
    while z < h
        invariant
            w == grid.num_cols(),
            h == grid.num_rows(),
            z <= h,
            built_up_to(*grid, out@, 0, z as int, 0),
        decreases h - z,
    {
        let mut x: usize = 0;
        while x < w
            invariant
                w == grid.num_cols(),
                h == grid.num_rows(),
                z < h,
                x <= w,
                built_up_to(*grid, out@, x as int, z as int, 0),
            decreases w - x,
        {
            if grid.is_wall_at_position(x, z) {
                build_side(grid, &mut out, x, z, WallSide::South);
                build_side(grid, &mut out, x, z, WallSide::North);
                build_side(grid, &mut out, x, z, WallSide::West);
                build_side(grid, &mut out, x, z, WallSide::East);
            }
            proof {
                lemma_next_tile(*grid, out@, x as int, z as int);
            }
            x = x + 1;
        }
        proof {
            lemma_next_row(*grid, out@, z as int);
        }
        z = z + 1;
    }
    assert forall|s: WallSegment| #[trigger] segment_wanted(*grid, s) implies out@.contains(s) by {
        assert(segment_precedes(s, 0, h as int, 0));
    }
    out
}

/// Where a wall panel stands in the world.  Positions are measured in half
/// tiles, with the grid centred on the origin; `spans_x` tells whether the
/// panel runs along the X axis (north and south faces) or along the Z axis
/// (east and west faces).
#[derive(Clone, Copy, Debug, PartialEq, Eq, Structural)]
pub struct WallPlacement {
    pub center_x2: i128,
    pub center_z2: i128,
    pub spans_x: bool,
}

/// Centre of tile `(x, z)` of a `cols` by `rows` grid centred on the origin,
/// in half tiles.
pub open spec fn tile_center2(cols: int, rows: int, x: int, z: int) -> (int, int) {
    (2 * x + 1 - cols, 2 * z + 1 - rows)
}

/// The placement of face `side` of tile `(x, z)`: the midpoint of that edge
/// of the tile, in half tiles, and whether the edge runs along X.
pub open spec fn placement_of(cols: int, rows: int, x: int, z: int, side: WallSide) -> (int, int, bool) {
    match side {
        WallSide::North => (2 * x + 1 - cols, 2 * z + 2 - rows, true),
        WallSide::South => (2 * x + 1 - cols, 2 * z - rows, true),
        WallSide::East => (2 * x + 2 - cols, 2 * z + 1 - rows, false),
        WallSide::West => (2 * x - cols, 2 * z + 1 - rows, false),
    }
}

/// Where the panel on face `side` of tile `(x, z)` of `grid` stands.
pub fn wall_placement(grid: &Grid, x: usize, z: usize, side: WallSide) -> (r: WallPlacement)
    ensures
        (r.center_x2 as int, r.center_z2 as int, r.spans_x)
            == placement_of(grid.num_cols() as int, grid.num_rows() as int, x as int, z as int, side),
        r.spans_x == (side == WallSide::North || side == WallSide::South),
{
    let cols: i128 = grid.width() as i128;
    let rows: i128 = grid.height() as i128;
    let x2: i128 = 2 * (x as i128);
    let z2: i128 = 2 * (z as i128);
    match side {
        WallSide::North => WallPlacement { center_x2: x2 + 1 - cols, center_z2: z2 + 2 - rows, spans_x: true },
        WallSide::South => WallPlacement { center_x2: x2 + 1 - cols, center_z2: z2 - rows, spans_x: true },
        WallSide::East => WallPlacement { center_x2: x2 + 2 - cols, center_z2: z2 + 1 - rows, spans_x: false },
        WallSide::West => WallPlacement { center_x2: x2 - cols, center_z2: z2 + 1 - rows, spans_x: false },
    }
}

/// A panel lies on the boundary between its tile and the neighbouring tile:
/// its centre is half a tile from the tile's centre, towards the neighbour,
/// and the panel on the neighbour's facing side stands in the same place.
pub proof fn lemma_panel_on_shared_edge(cols: int, rows: int, x: int, z: int, side: WallSide)
    ensures
        ({
            let p = placement_of(cols, rows, x, z, side);
            let c = tile_center2(cols, rows, x, z);
            let n = neighbor(x, z, side);
            let d = tile_center2(cols, rows, n.0, n.1);
            &&& 2 * p.0 == c.0 + d.0
            &&& 2 * p.1 == c.1 + d.1
            &&& p == placement_of(cols, rows, n.0, n.1, opposite(side))
        }),
{
}

/// The side that faces the other way.
pub open spec fn opposite(side: WallSide) -> WallSide {
    match side {
        WallSide::North => WallSide::South,
        WallSide::South => WallSide::North,
        WallSide::East => WallSide::West,
        WallSide::West => WallSide::East,
    }
}

/// Panels never stand back to back: when the map calls for a panel, it does
/// not call for the panel on the facing side of the neighbouring tile.
pub proof fn lemma_no_back_to_back_panels(g: Grid, s: WallSegment, t: WallSegment)
    requires
        segment_wanted(g, s),
        (t.x as int, t.z as int) == neighbor(s.x as int, s.z as int, s.side),
        t.side == opposite(s.side),
    ensures
        !segment_wanted(g, t),
{
}

/// The maze is closed: every neighbour of an open tile of the maze is a tile
/// of the maze, so no open tile looks off the map.
pub proof fn lemma_maze_closed(x: int, z: int, side: WallSide)
    requires
        0 <= x < MAZE_SIZE,
        0 <= z < MAZE_SIZE,
        !maze_wall(x, z),
    ensures
        0 <= neighbor(x, z, side).0 < MAZE_SIZE,
        0 <= neighbor(x, z, side).1 < MAZE_SIZE,
{
}

/// Whether a panel runs along X depends on its side alone: north and south
/// panels run along X, east and west panels along Z, for every tile.
pub proof fn lemma_panel_orientation(cols: int, rows: int, x: int, z: int, side: WallSide)
    ensures
        placement_of(cols, rows, x, z, side).2 == (side == WallSide::North || side == WallSide::South),
{
}

/// The panel rules in terms of the tiles themselves: a panel is built only on
/// a solid tile, on both storeys alike, and on a side exactly when the tile
/// next to it on that side is not a solid tile of the grid (an edge of the
/// map counts as open).
pub proof fn lemma_panel_rules(g: Grid, x: usize, z: usize, side: WallSide, storey: u8)
    ensures
        segment_wanted(g, WallSegment { x, z, side, storey }) ==> g.solid_tile(x as int, z as int) && storey < 2,
        g.solid_tile(x as int, z as int) && storey < 2 ==> (segment_wanted(g, WallSegment { x, z, side, storey }) == match side {
            WallSide::North => !g.solid_tile(x as int, z + 1),
            WallSide::South => z == 0 || !g.solid_tile(x as int, z - 1),
            WallSide::East => !g.solid_tile(x + 1, z as int),
            WallSide::West => x == 0 || !g.solid_tile(x - 1, z as int),
        }),
        segment_wanted(g, WallSegment { x, z, side, storey: 0 }) == segment_wanted(g, WallSegment { x, z, side, storey: 1 }),
{
}

} // verus!
