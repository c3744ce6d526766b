//! The tile map: a rectangular grid of solid and open tiles.
use vstd::prelude::*;

verus! {

/// Number of tiles along each side of the maze.
pub const MAZE_SIZE: usize = 20;

/// Whether the tile at column `x`, row `z` of the maze is solid: an outer
/// ring of wall with a handful of straight wall runs inside it.
pub open spec fn maze_wall(x: int, z: int) -> bool {
    ||| x == 0 || x == 19 || z == 0 || z == 19
    ||| z == 3 && (3 <= x <= 7 || 10 <= x <= 16)
    ||| 4 <= z <= 7 && (x == 5 || x == 10)
    ||| z == 8 && 5 <= x <= 11
    ||| z == 12 && 14 <= x
    ||| 13 <= z <= 15 && x == 14
    ||| z == 16 && 3 <= x <= 16
}

/// Row-major order of tiles given as `(column, row)`: earlier rows first,
/// and within a row, lower columns first.
pub open spec fn tile_before(a: (int, int), b: (int, int)) -> bool {
    a.1 < b.1 || (a.1 == b.1 && a.0 < b.0)
}

/// The rows of a grid as mathematical sequences.
pub open spec fn rows_view(rows: Seq<Vec<bool>>) -> Seq<Seq<bool>> {
    rows.map_values(|r: Vec<bool>| r@)
}

/// Whether all rows have the same length as the first.
pub open spec fn rectangular(rows: Seq<Seq<bool>>) -> bool {
    forall|z: int| 0 <= z < rows.len() ==> #[trigger] rows[z].len() == rows[0].len()
}

/// A rectangular map of tiles; `true` marks a solid tile.  Row `z` holds the
/// tiles of column `x` in `0..width`.
pub struct Grid {
    rows: Vec<Vec<bool>>,
    width: usize,
}

impl View for Grid {
    type V = Seq<Seq<bool>>;

    closed spec fn view(&self) -> Seq<Seq<bool>> {
        rows_view(self.rows@)
    }
}

impl Grid {
    #[verifier::type_invariant]
    closed spec fn well_formed(self) -> bool {
        &&& forall|z: int| 0 <= z < self.rows@.len() ==> #[trigger] self.rows@[z]@.len() == self.width
        &&& self.rows@.len() == 0 ==> self.width == 0
    }

    /// Number of columns.
    pub closed spec fn num_cols(self) -> nat {
        self.width as nat
    }

    /// Number of rows.
    pub open spec fn num_rows(self) -> nat {
        self@.len()
    }

    /// Whether `(x, z)` names a tile of the grid.
    pub open spec fn in_bounds(self, x: int, z: int) -> bool {
        0 <= x < self.num_cols() && 0 <= z < self.num_rows()
    }

    /// Whether `(x, z)` is a solid tile of the grid.
    pub open spec fn solid_tile(self, x: int, z: int) -> bool {
        self.in_bounds(x, z) && self@[z][x]
    }

    /// Whether `(x, z)` blocks movement: a solid tile, or any place off the grid.
    pub open spec fn wall_at(self, x: int, z: int) -> bool {
        !self.in_bounds(x, z) || self@[z][x]
    }

    /// Whether some cell of `cells` blocks movement.
    pub open spec fn any_wall(self, cells: Seq<(usize, usize)>) -> bool {
        exists|i: int| 0 <= i < cells.len() && #[trigger] self.wall_at(cells[i].0 as int, cells[i].1 as int)
    }

    /// Builds a grid from its rows; `None` when the rows differ in length.
    pub fn from_rows(rows: Vec<Vec<bool>>) -> (r: Option<Grid>)
        ensures
            r is Some <==> rectangular(rows_view(rows@)),
            r matches Some(g) ==> {
                &&& g@ == rows_view(rows@)
                &&& g.num_cols() == (if rows@.len() == 0 { 0 } else { rows@[0]@.len() })
            },
    {
        let n: usize = rows.len();
        if n == 0 {
            return Some(Grid { rows, width: 0 });
        }
        let width: usize = rows[0].len();
        let mut z: usize = 0;
        while z < n
            invariant
                n == rows@.len(),
                n > 0,
                width == rows@[0]@.len(),
                0 <= z <= n,
                forall|k: int| 0 <= k < z ==> #[trigger] rows@[k]@.len() == width,
            decreases n - z,
        {
            if rows[z].len() != width {
                assert(rows_view(rows@)[z as int].len() != rows_view(rows@)[0].len());
                return None;
            }
            z = z + 1;
        }
        assert(rectangular(rows_view(rows@)));
        Some(Grid { rows, width })
    }

    /// The maze the game is played in: `MAZE_SIZE` tiles on each side.
    pub fn maze() -> (g: Grid)
        ensures
            g.num_cols() == MAZE_SIZE,
            g.num_rows() == MAZE_SIZE,
            forall|x: int, z: int| #[trigger] g.wall_at(x, z)
                == (!(0 <= x < MAZE_SIZE && 0 <= z < MAZE_SIZE) || maze_wall(x, z)),
            forall|x: int, z: int| #[trigger] g.solid_tile(x, z)
                == (0 <= x < MAZE_SIZE && 0 <= z < MAZE_SIZE && maze_wall(x, z)),
    {
        let rows = vec![
            vec![true, true, true, true, true, true, true, true, true, true, true, true, true, true, true, true, true, true, true, true],
            vec![true, false, false, false, false, false, false, false, false, false, false, false, false, false, false, false, false, false, false, true],
            vec![true, false, false, false, false, false, false, false, false, false, false, false, false, false, false, false, false, false, false, true],
            vec![true, false, false, true, true, true, true, true, false, false, true, true, true, true, true, true, true, false, false, true],
            vec![true, false, false, false, false, true, false, false, false, false, true, false, false, false, false, false, false, false, false, true],
            vec![true, false, false, false, false, true, false, false, false, false, true, false, false, false, false, false, false, false, false, true],
            vec![true, false, false, false, false, true, false, false, false, false, true, false, false, false, false, false, false, false, false, true],
            vec![true, false, false, false, false, true, false, false, false, false, true, false, false, false, false, false, false, false, false, true],
            vec![true, false, false, false, false, true, true, true, true, true, true, true, false, false, false, false, false, false, false, true],
            vec![true, false, false, false, false, false, false, false, false, false, false, false, false, false, false, false, false, false, false, true],
            vec![true, false, false, false, false, false, false, false, false, false, false, false, false, false, false, false, false, false, false, true],
            vec![true, false, false, false, false, false, false, false, false, false, false, false, false, false, false, false, false, false, false, true],
            vec![true, false, false, false, false, false, false, false, false, false, false, false, false, false, true, true, true, true, true, true],
            vec![true, false, false, false, false, false, false, false, false, false, false, false, false, false, true, false, false, false, false, true],
            vec![true, false, false, false, false, false, false, false, false, false, false, false, false, false, true, false, false, false, false, true],
            vec![true, false, false, false, false, false, false, false, false, false, false, false, false, false, true, false, false, false, false, true],
            vec![true, false, false, true, true, true, true, true, true, true, true, true, true, true, true, true, true, false, false, true],
            vec![true, false, false, false, false, false, false, false, false, false, false, false, false, false, false, false, false, false, false, true],
            vec![true, false, false, false, false, false, false, false, false, false, false, false, false, false, false, false, false, false, false, true],
            vec![true, true, true, true, true, true, true, true, true, true, true, true, true, true, true, true, true, true, true, true],
        ];
        assert(forall|z: int| 0 <= z < 20 ==> #[trigger] rows@[z]@.len() == 20);
        let g = Grid { rows, width: MAZE_SIZE };
        assert forall|x: int, z: int| g.in_bounds(x, z) implies (g@[z][x] <==> maze_wall(x, z)) by {
            assert(g@[z] == g.rows@[z]@);
        }
        assert forall|x: int, z: int| #[trigger] g.wall_at(x, z)
            == (!(0 <= x < MAZE_SIZE && 0 <= z < MAZE_SIZE) || maze_wall(x, z)) by {
            if g.in_bounds(x, z) {
                assert(g@[z][x] <==> maze_wall(x, z));
            }
        }
        assert forall|x: int, z: int| #[trigger] g.solid_tile(x, z)
            == (0 <= x < MAZE_SIZE && 0 <= z < MAZE_SIZE && maze_wall(x, z)) by {
            if g.in_bounds(x, z) {
                assert(g@[z][x] <==> maze_wall(x, z));
            }
        }
        g
    }
    /// Number of columns.
    pub fn width(&self) -> (r: usize)
        ensures
            r == self.num_cols(),
    {
        self.width
    }

    /// Number of rows.
    pub fn height(&self) -> (r: usize)
        ensures
            r == self.num_rows(),
    {
        self.rows.len()
    }

    /// Whether the tile at column `x`, row `z` blocks movement; anything off
    /// the grid counts as wall.
    pub fn is_wall_at_position(&self, x: usize, z: usize) -> (r: bool)
        ensures
            r == self.wall_at(x as int, z as int),
    {
        proof {
            use_type_invariant(self);
        }
        if x >= self.width || z >= self.rows.len() {
            return true;
        }
        let row = &self.rows[z];
        assert(self@[z as int] == row@);
        row[x]
    }

    /// Whether any of the sampled cells blocks movement.  The caller samples
    /// the path of a moving body and maps each sample point to its cell.
    pub fn hits_wall(&self, cells: &Vec<(usize, usize)>) -> (r: bool)
        ensures
            r == self.any_wall(cells@),
            forall|i: int| 0 <= i < cells@.len() && #[trigger] self.wall_at(cells@[i].0 as int, cells@[i].1 as int) ==> r,
            !r ==> forall|i: int| 0 <= i < cells@.len() ==> !#[trigger] self.wall_at(cells@[i].0 as int, cells@[i].1 as int),
    {
        let n: usize = cells.len();
        let mut i: usize = 0;
        while i < n
            invariant
                n == cells@.len(),
                0 <= i <= n,
                forall|k: int| 0 <= k < i ==> !#[trigger] self.wall_at(cells@[k].0 as int, cells@[k].1 as int),
            decreases n - i,
        {
            let (x, z) = cells[i];
            if self.is_wall_at_position(x, z) {
                return true;
            }
            i = i + 1;
        }
        false
    }

    /// Whether a ray is unobstructed: none of the cells sampled along it is a wall.
    pub fn has_line_of_sight(&self, ray_cells: &Vec<(usize, usize)>) -> (r: bool)
        ensures
            r == !self.any_wall(ray_cells@),
            r <==> forall|i: int| 0 <= i < ray_cells@.len() ==> !#[trigger] self.wall_at(ray_cells@[i].0 as int, ray_cells@[i].1 as int),
    {
        !self.hits_wall(ray_cells)
    }

    /// The solid tiles, in row-major order.
    pub fn wall_cells(&self) -> (r: Vec<(usize, usize)>)
        ensures
            forall|i: int| 0 <= i < r@.len() ==> #[trigger] self.solid_tile(r@[i].0 as int, r@[i].1 as int),
            forall|x: usize, z: usize| #[trigger] self.solid_tile(x as int, z as int) ==> r@.contains((x, z)),
            forall|i: int, j: int| 0 <= i < j < r@.len() ==>
                tile_before((r@[i].0 as int, r@[i].1 as int), (r@[j].0 as int, r@[j].1 as int)),
    {
        proof {
            use_type_invariant(self);
        }
        let h: usize = self.rows.len();
        let w: usize = self.width;
        assert forall|k: int| 0 <= k < h implies #[trigger] self@[k].len() == w by {
            assert(self@[k] == self.rows@[k]@);
        }
        let mut out: Vec<(usize, usize)> = Vec::new();
        let mut z: usize = 0;
        while z < h
            invariant
                h == self.num_rows(),
                w == self.num_cols(),
                forall|k: int| 0 <= k < h ==> #[trigger] self@[k].len() == w,
                0 <= z <= h,
                forall|i: int| 0 <= i < out@.len() ==> #[trigger] self.solid_tile(out@[i].0 as int, out@[i].1 as int),
                forall|i: int| 0 <= i < out@.len() ==>
                    tile_before((#[trigger] out@[i].0 as int, out@[i].1 as int), (0, z as int)),
                forall|xx: usize, zz: usize|
                    tile_before((xx as int, zz as int), (0, z as int)) && #[trigger] self.solid_tile(xx as int, zz as int)
                        ==> out@.contains((xx, zz)),
                forall|i: int, j: int| 0 <= i < j < out@.len() ==>
                    tile_before((out@[i].0 as int, out@[i].1 as int), (out@[j].0 as int, out@[j].1 as int)),
            decreases h - z,
        {
            let row = &self.rows[z];
            assert(self@[z as int] == row@);
            let mut x: usize = 0;
            while x < w
                invariant
                    h == self.num_rows(),
                    w == self.num_cols(),
                    0 <= z < h,
                    0 <= x <= w,
                    row@ == self@[z as int],
                    row@.len() == w,
                    forall|i: int| 0 <= i < out@.len() ==> #[trigger] self.solid_tile(out@[i].0 as int, out@[i].1 as int),
                    forall|i: int| 0 <= i < out@.len() ==>
                        tile_before((#[trigger] out@[i].0 as int, out@[i].1 as int), (x as int, z as int)),
                    forall|xx: usize, zz: usize|
                        tile_before((xx as int, zz as int), (x as int, z as int)) && #[trigger] self.solid_tile(xx as int, zz as int)
                            ==> out@.contains((xx, zz)),
                    forall|i: int, j: int| 0 <= i < j < out@.len() ==>
                        tile_before((out@[i].0 as int, out@[i].1 as int), (out@[j].0 as int, out@[j].1 as int)),
                decreases w - x,
            {
                let ghost before = out@;
                if row[x] {
                    out.push((x, z));
                    assert(out@[out@.len() - 1] == (x, z));
                }
                assert forall|xx: usize, zz: usize|
                    tile_before((xx as int, zz as int), (x + 1, z as int)) && #[trigger] self.solid_tile(xx as int, zz as int)
                        implies out@.contains((xx, zz)) by {
                    if xx == x && zz == z {
                        assert(out@[out@.len() - 1] == (x, z));
                    } else {
                        assert(before.contains((xx, zz)));
                        let k = choose|k: int| 0 <= k < before.len() && before[k] == (xx, zz);
                        assert(out@[k] == (xx, zz));
                    }
                }
                x = x + 1;
            }
            z = z + 1;
        }
        out
    }
}

} // verus!
