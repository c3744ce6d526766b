use stone_maze::grid::Grid;

const LAYOUT: [[bool; 20]; 20] = [
    [true, true, true, true, true, true, true, true, true, true, true, true, true, true, true, true, true, true, true, true],
    [true, false, false, false, false, false, false, false, false, false, false, false, false, false, false, false, false, false, false, true],
    [true, false, false, false, false, false, false, false, false, false, false, false, false, false, false, false, false, false, false, true],
    [true, false, false, true, true, true, true, true, false, false, true, true, true, true, true, true, true, false, false, true],
    [true, false, false, false, false, true, false, false, false, false, true, false, false, false, false, false, false, false, false, true],
    [true, false, false, false, false, true, false, false, false, false, true, false, false, false, false, false, false, false, false, true],
    [true, false, false, false, false, true, false, false, false, false, true, false, false, false, false, false, false, false, false, true],
    [true, false, false, false, false, true, false, false, false, false, true, false, false, false, false, false, false, false, false, true],
    [true, false, false, false, false, true, true, true, true, true, true, true, false, false, false, false, false, false, false, true],
    [true, false, false, false, false, false, false, false, false, false, false, false, false, false, false, false, false, false, false, true],
    [true, false, false, false, false, false, false, false, false, false, false, false, false, false, false, false, false, false, false, true],
    [true, false, false, false, false, false, false, false, false, false, false, false, false, false, false, false, false, false, false, true],
    [true, false, false, false, false, false, false, false, false, false, false, false, false, false, true, true, true, true, true, true],
    [true, false, false, false, false, false, false, false, false, false, false, false, false, false, true, false, false, false, false, true],
    [true, false, false, false, false, false, false, false, false, false, false, false, false, false, true, false, false, false, false, true],
    [true, false, false, false, false, false, false, false, false, false, false, false, false, false, true, false, false, false, false, true],
    [true, false, false, true, true, true, true, true, true, true, true, true, true, true, true, true, true, false, false, true],
    [true, false, false, false, false, false, false, false, false, false, false, false, false, false, false, false, false, false, false, true],
    [true, false, false, false, false, false, false, false, false, false, false, false, false, false, false, false, false, false, false, true],
    [true, true, true, true, true, true, true, true, true, true, true, true, true, true, true, true, true, true, true, true],
];

fn grid_of(rows: &[&[bool]]) -> Grid {
    Grid::from_rows(rows.iter().map(|r| r.to_vec()).collect()).expect("rectangular rows")
}

#[test]
fn maze_matches_layout_table() {
    let g = Grid::maze();
    assert_eq!(g.width(), 20);
    assert_eq!(g.height(), 20);
    for z in 0..20 {
        for x in 0..20 {
            assert_eq!(g.is_wall_at_position(x, z), LAYOUT[z][x], "tile ({}, {})", x, z);
        }
    }
}

#[test]
fn positions_off_the_maze_are_walls() {
    let g = Grid::maze();
    assert!(g.is_wall_at_position(20, 5));
    assert!(g.is_wall_at_position(5, 20));
    assert!(g.is_wall_at_position(usize::MAX, 3));
    assert!(g.is_wall_at_position(3, usize::MAX));
    assert!(!g.is_wall_at_position(1, 1));
    assert!(g.is_wall_at_position(5, 4));
}

#[test]
fn ragged_rows_are_refused() {
    let rows = vec![vec![true, false], vec![true]];
    assert!(Grid::from_rows(rows).is_none());
    let rows = vec![vec![true], vec![false, false]];
    assert!(Grid::from_rows(rows).is_none());
}

#[test]
fn empty_grid_is_all_wall() {
    let g = Grid::from_rows(Vec::new()).unwrap();
    assert_eq!(g.width(), 0);
    assert_eq!(g.height(), 0);
    assert!(g.is_wall_at_position(0, 0));
    assert!(g.wall_cells().is_empty());
}

#[test]
fn rectangular_grid_keeps_its_rows() {
    let g = grid_of(&[&[true, false, false], &[false, false, true]]);
    assert_eq!(g.width(), 3);
    assert_eq!(g.height(), 2);
    assert!(g.is_wall_at_position(0, 0));
    assert!(!g.is_wall_at_position(1, 0));
    assert!(g.is_wall_at_position(2, 1));
    assert!(g.is_wall_at_position(3, 1));
    assert!(g.is_wall_at_position(0, 2));
}

#[test]
fn no_samples_never_collide() {
    let g = Grid::maze();
    assert!(!g.hits_wall(&Vec::new()));
    assert!(g.has_line_of_sight(&Vec::new()));
}

#[test]
fn samples_in_open_tiles_do_not_collide() {
    let g = Grid::maze();
    let cells = vec![(1, 1), (2, 2), (9, 9), (18, 18)];
    assert!(!g.hits_wall(&cells));
    assert!(g.has_line_of_sight(&cells));
}

#[test]
fn one_sample_in_a_wall_collides() {
    let g = Grid::maze();
    let cells = vec![(1, 1), (2, 2), (5, 5), (9, 9)];
    assert!(g.hits_wall(&cells));
    assert!(!g.has_line_of_sight(&cells));
}

#[test]
fn a_sample_off_the_map_collides() {
    let g = Grid::maze();
    assert!(g.hits_wall(&vec![(1, 1), (25, 1)]));
}

#[test]
fn wall_cells_in_row_major_order() {
    let g = grid_of(&[&[true, false, true], &[false, true, false]]);
    assert_eq!(g.wall_cells(), vec![(0, 0), (2, 0), (1, 1)]);
}

#[test]
fn maze_wall_cells_match_layout_table() {
    let g = Grid::maze();
    let mut expected = Vec::new();
    for y in 0..20 {
        for x in 0..20 {
            if LAYOUT[y][x] {
                expected.push((x, y));
            }
        }
    }
    assert_eq!(g.wall_cells(), expected);
}
