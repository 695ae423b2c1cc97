use gol_puzzles::board::{Board, OutOfBoundsPosition, Position};

fn pos(x: u16, y: u16) -> Position {
    Position { x, y }
}

fn board(size: u16, cells: &[(u16, u16)]) -> Board {
    Board::with_live_cells(size, cells.iter().map(|&(x, y)| pos(x, y)).collect())
}

#[test]
fn with_live_cells_drops_repeats_and_sorts_by_column_then_row() {
    let b = board(5, &[(1, 1), (2, 3), (1, 1), (0, 4), (2, 3), (1, 0)]);
    assert_eq!(b.size, 5);
    assert_eq!(b.live_cells, vec![pos(0, 4), pos(1, 0), pos(1, 1), pos(2, 3)]);
}

#[test]
fn is_live_reports_membership() {
    let b = board(4, &[(0, 0), (3, 2)]);
    assert!(b.is_live(pos(0, 0)));
    assert!(b.is_live(pos(3, 2)));
    assert!(!b.is_live(pos(2, 3)));
    assert!(!b.is_live(pos(1, 1)));
}

#[test]
fn try_with_live_cells_rejects_first_position_off_the_grid() {
    let r = Board::try_with_live_cells(4, vec![pos(1, 1), pos(4, 0), pos(0, 9)]);
    assert_eq!(r.err(), Some(OutOfBoundsPosition { position: pos(4, 0) }));
    let ok = Board::try_with_live_cells(4, vec![pos(3, 3), pos(3, 3)]).unwrap();
    assert_eq!(ok.live_cells, vec![pos(3, 3)]);
}

#[test]
fn equality_ignores_listing_order() {
    let a = board(6, &[(1, 2), (3, 4), (5, 0)]);
    let b = board(6, &[(5, 0), (1, 2), (3, 4)]);
    assert!(a == b);
    assert!(a != board(7, &[(1, 2), (3, 4), (5, 0)]));
    assert!(a != board(6, &[(1, 2), (3, 4)]));
}

#[test]
fn advance_zero_gives_an_equal_board() {
    let b = board(9, &[(2, 1), (3, 2), (1, 3), (2, 3), (3, 3)]);
    let same = b.advance(0);
    assert!(same == b);
    assert_eq!(same.live_cells, b.live_cells);
}

#[test]
fn advance_equals_repeated_advance_once() {
    let b = board(12, &[(2, 1), (3, 2), (1, 3), (2, 3), (3, 3), (8, 8), (8, 9), (8, 10)]);
    let mut step_by_step = b.advance(0);
    for n in 0..10u16 {
        assert!(b.advance(n) == step_by_step, "differs after {} steps", n);
        step_by_step = step_by_step.advance_once();
    }
}

#[test]
fn advance_composes() {
    let b = board(10, &[(2, 1), (3, 2), (1, 3), (2, 3), (3, 3)]);
    assert!(b.advance(3).advance(5) == b.advance(8));
}

#[test]
fn blinker_oscillates_with_period_two() {
    let b = board(7, &[(3, 2), (3, 3), (3, 4)]);
    let once = b.advance_once();
    assert!(once == board(7, &[(2, 3), (3, 3), (4, 3)]));
    assert!(once != b);
    assert!(b.advance(2) == b);
}

#[test]
fn lonely_corner_cell_dies() {
    for size in [1u16, 2, 5, 30] {
        let b = board(size, &[(0, 0)]);
        assert!(b.advance_once().live_cells.is_empty());
    }
}

#[test]
fn block_is_still() {
    let b = board(8, &[(3, 3), (3, 4), (4, 3), (4, 4)]);
    assert!(b.advance_once() == b);
    assert!(b.advance(7) == b);
}

#[test]
fn glider_moves_one_cell_diagonally_every_four_steps() {
    let b = board(12, &[(2, 1), (3, 2), (1, 3), (2, 3), (3, 3)]);
    let moved = board(12, &[(3, 2), (4, 3), (2, 4), (3, 4), (4, 4)]);
    assert!(b.advance(4) == moved);
}

#[test]
fn birth_needs_exactly_three_neighbors() {
    // An L of three cells becomes a block: the fourth corner has three neighbors.
    let b = board(6, &[(2, 2), (3, 2), (2, 3)]);
    assert!(b.advance_once() == board(6, &[(2, 2), (3, 2), (2, 3), (3, 3)]));
}

#[test]
fn cells_never_appear_off_the_grid() {
    // A blinker along the edge would grow off the grid; only the on-grid part appears.
    let b = board(5, &[(0, 1), (0, 2), (0, 3)]);
    assert!(b.advance_once() == board(5, &[(0, 2), (1, 2)]));
}

#[test]
fn corner_cell_without_neighbors_dies_beside_other_patterns() {
    let b = board(10, &[(0, 0), (5, 4), (5, 5), (5, 6), (9, 9)]);
    let next = b.advance_once();
    assert!(!next.is_live(pos(0, 0)));
    assert!(!next.is_live(pos(9, 9)));
    assert!(next == board(10, &[(4, 5), (5, 5), (6, 5)]));
}

#[test]
fn advanced_boards_list_cells_in_order() {
    let b = board(12, &[(9, 10), (8, 9), (10, 8), (9, 8), (8, 8), (2, 1), (3, 2), (1, 3), (2, 3), (3, 3)]);
    for n in 0..6u16 {
        let cells = b.advance(n).live_cells;
        for w in cells.windows(2) {
            assert!((w[0].x, w[0].y) < (w[1].x, w[1].y));
        }
    }
}
