use gol_puzzles::board::{Board, Position};
use gol_puzzles::condition::{evaluate_all, Condition};

fn pos(x: u16, y: u16) -> Position {
    Position { x, y }
}

fn board(size: u16, cells: &[(u16, u16)]) -> Board {
    Board::with_live_cells(size, cells.iter().map(|&(x, y)| pos(x, y)).collect())
}

fn rect(x: std::ops::Range<u16>, y: std::ops::Range<u16>, min: u32, max: u32) -> Condition {
    Condition::TestRectangle {
        x_range: x,
        y_range: y,
        min_live_count: min,
        max_live_count: max,
    }
}

fn samples() -> Vec<Board> {
    vec![
        board(1, &[]),
        board(3, &[(0, 0), (2, 2)]),
        board(8, &[(3, 3), (3, 4), (4, 3), (4, 4)]),
        board(12, &[(2, 1), (3, 2), (1, 3), (2, 3), (3, 3), (9, 10), (8, 9)]),
    ]
}

#[test]
fn test_position_compares_liveness() {
    let b = board(4, &[(1, 2)]);
    let live = Condition::TestPosition { position: pos(1, 2), is_live: true };
    let dead = Condition::TestPosition { position: pos(1, 2), is_live: false };
    let other = Condition::TestPosition { position: pos(2, 1), is_live: false };
    assert!(live.evaluate(&b));
    assert!(!dead.evaluate(&b));
    assert!(other.evaluate(&b));
}

#[test]
fn test_rectangle_counts_half_open_with_inclusive_bounds() {
    let b = board(6, &[(0, 0), (1, 1), (2, 2), (5, 5)]);
    assert!(rect(0..3, 0..3, 3, 3).evaluate(&b));
    assert!(rect(0..2, 0..2, 2, 2).evaluate(&b));
    assert!(rect(0..2, 0..2, 1, 2).evaluate(&b));
    assert!(!rect(0..2, 0..2, 3, 4).evaluate(&b));
    assert!(!rect(0..3, 0..3, 0, 2).evaluate(&b));
    assert!(rect(3..6, 3..6, 1, 1).evaluate(&b));
    assert!(rect(3..5, 3..5, 0, 0).evaluate(&b));
}

#[test]
fn empty_list_holds() {
    assert!(evaluate_all(&vec![], &board(3, &[(1, 1)])));
}

#[test]
fn list_holds_only_when_every_condition_does() {
    let b = board(4, &[(1, 1)]);
    let yes = Condition::TestPosition { position: pos(1, 1), is_live: true };
    let no = Condition::TestPosition { position: pos(0, 0), is_live: true };
    assert!(evaluate_all(&vec![yes.clone(), rect(0..4, 0..4, 1, 1)], &b));
    assert!(!evaluate_all(&vec![yes, no, rect(0..4, 0..4, 1, 1)], &b));
}

#[test]
fn exact_conditions_layout() {
    let b = board(9, &[(3, 2), (4, 2), (2, 3)]);
    let conds = b.to_exactly_matching_conditions();
    assert_eq!(
        conds,
        vec![
            Condition::TestPosition { position: pos(2, 3), is_live: true },
            Condition::TestPosition { position: pos(3, 2), is_live: true },
            Condition::TestPosition { position: pos(4, 2), is_live: true },
            rect(0..9, 0..9, 3, 3),
        ]
    );
    assert_eq!(b.to_exactly_matching_conditions(), conds);
}

#[test]
fn board_meets_its_exact_conditions() {
    for b in samples() {
        assert!(evaluate_all(&b.to_exactly_matching_conditions(), &b));
    }
}

#[test]
fn extra_live_cell_fails_exact_conditions() {
    let b = board(8, &[(3, 3), (3, 4), (4, 3), (4, 4)]);
    let conds = b.to_exactly_matching_conditions();
    for x in 0..8u16 {
        for y in 0..8u16 {
            if b.is_live(pos(x, y)) {
                continue;
            }
            let mut cells = b.live_cells.clone();
            cells.push(pos(x, y));
            assert!(!evaluate_all(&conds, &Board::with_live_cells(8, cells)));
        }
    }
}

#[test]
fn missing_live_cell_fails_exact_conditions() {
    for b in samples() {
        let conds = b.to_exactly_matching_conditions();
        for i in 0..b.live_cells.len() {
            let mut cells = b.live_cells.clone();
            cells.remove(i);
            assert!(!evaluate_all(&conds, &Board::with_live_cells(b.size, cells)));
        }
    }
}

#[test]
fn dropping_leading_entries_turns_exact_match_into_a_hint() {
    let b = board(9, &[(3, 2), (4, 2), (2, 3), (5, 3)]);
    let mut hint = b.to_exactly_matching_conditions();
    hint.remove(3);
    hint.remove(2);
    // The cells are listed by column, so the hint pins (2, 3) and (3, 2); another board
    // with those two cells and four live cells passes it.
    let other = board(9, &[(2, 3), (3, 2), (0, 0), (8, 8)]);
    assert!(evaluate_all(&hint, &other));
    assert!(!evaluate_all(&b.to_exactly_matching_conditions(), &other));
}
