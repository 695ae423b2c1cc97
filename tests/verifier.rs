use gol_puzzles::board::{Board, Position};
use gol_puzzles::catalog::{
    create_glider_collision_cancel_puzzle_and_solution,
    create_glider_collision_square_puzzle_and_solution,
};
use gol_puzzles::condition::Condition;
use gol_puzzles::puzzle::{verify, Difficulty, Puzzle, VerificationError};

fn pos(x: u16, y: u16) -> Position {
    Position { x, y }
}

fn board(size: u16, cells: &[(u16, u16)]) -> Board {
    Board::with_live_cells(size, cells.iter().map(|&(x, y)| pos(x, y)).collect())
}

fn puzzle(
    size: u16,
    steps: (u16, u16),
    enforce: bool,
    strict: bool,
    initial: Vec<Condition>,
    fin: Vec<Condition>,
) -> Puzzle {
    Puzzle {
        title: "Test".to_string(),
        summary: "A puzzle for tests".to_string(),
        difficulty: Difficulty::Easy,
        size,
        metadata: String::new(),
        minimal_steps: steps.0,
        maximal_steps: steps.1,
        enforce_initial_conditions: enforce,
        is_strict: strict,
        initial_conditions: initial,
        final_conditions: fin,
    }
}

fn block() -> Board {
    board(8, &[(3, 3), (3, 4), (4, 3), (4, 4)])
}

#[test]
fn stable_block_solves_its_own_puzzle_in_one_step() {
    let b = block();
    let p = puzzle(8, (1, 1), false, false, vec![], b.to_exactly_matching_conditions());
    assert_eq!(verify(&p, &b), Ok(1));
    assert_eq!(p.check_solution(&b), Ok(1));
}

#[test]
fn initial_conditions_are_enforced() {
    let b = block();
    let initial = vec![Condition::TestRectangle {
        x_range: 0..8,
        y_range: 0..8,
        min_live_count: 4,
        max_live_count: 4,
    }];
    let p = puzzle(8, (1, 1), true, false, initial, b.to_exactly_matching_conditions());
    assert_eq!(verify(&p, &b), Ok(1));
    let three = board(8, &[(3, 3), (3, 4), (4, 3)]);
    assert_eq!(verify(&p, &three), Err(VerificationError::InitialConditionsNotMet));
}

#[test]
fn unenforced_initial_conditions_are_only_hints() {
    let b = block();
    let initial = vec![Condition::TestPosition { position: pos(0, 0), is_live: true }];
    let p = puzzle(8, (1, 1), false, false, initial, b.to_exactly_matching_conditions());
    assert_eq!(verify(&p, &b), Ok(1));
}

#[test]
fn three_cell_l_grows_into_the_block() {
    let b = block();
    let three = board(8, &[(3, 3), (3, 4), (4, 3)]);
    let p = puzzle(8, (1, 1), false, false, vec![], b.to_exactly_matching_conditions());
    assert_eq!(verify(&p, &three), Ok(1));
}

#[test]
fn search_returns_the_first_step_in_the_window() {
    let vertical = board(7, &[(3, 2), (3, 3), (3, 4)]);
    let horizontal = board(7, &[(2, 3), (3, 3), (4, 3)]);
    let fin = horizontal.to_exactly_matching_conditions();
    assert_eq!(verify(&puzzle(7, (0, 5), false, false, vec![], fin.clone()), &vertical), Ok(1));
    assert_eq!(verify(&puzzle(7, (2, 5), false, false, vec![], fin.clone()), &vertical), Ok(3));
    assert_eq!(verify(&puzzle(7, (0, 0), false, false, vec![], fin.clone()), &horizontal), Ok(0));
    assert_eq!(
        verify(&puzzle(7, (2, 2), false, false, vec![], fin), &vertical),
        Err(VerificationError::FinalConditionsNotReached)
    );
}

#[test]
fn strict_puzzles_accept_only_the_minimal_step() {
    let vertical = board(7, &[(3, 2), (3, 3), (3, 4)]);
    let horizontal = board(7, &[(2, 3), (3, 3), (4, 3)]);
    let fin = horizontal.to_exactly_matching_conditions();
    assert_eq!(
        verify(&puzzle(7, (2, 5), false, true, vec![], fin.clone()), &vertical),
        Err(VerificationError::FinalConditionsNotReached)
    );
    assert_eq!(verify(&puzzle(7, (3, 5), false, true, vec![], fin), &vertical), Ok(3));
}

#[test]
fn empty_window_is_never_reached() {
    let b = block();
    let p = puzzle(8, (3, 2), false, false, vec![], b.to_exactly_matching_conditions());
    assert_eq!(verify(&p, &b), Err(VerificationError::FinalConditionsNotReached));
}

#[test]
fn verification_leaves_the_candidate_unchanged() {
    let b = board(7, &[(3, 2), (3, 3), (3, 4)]);
    let before = b.live_cells.clone();
    let p = puzzle(7, (0, 6), false, false, vec![], block().to_exactly_matching_conditions());
    assert_eq!(verify(&p, &b), Err(VerificationError::FinalConditionsNotReached));
    assert_eq!(b.live_cells, before);
}

#[test]
fn gliders_collide_into_the_expected_outcome() {
    let (square, gliders) = create_glider_collision_square_puzzle_and_solution();
    assert_eq!(square.size, 12);
    assert!(square.is_strict);
    assert_eq!(verify(&square, &gliders), Ok(14));
    let (cancel, gliders2) = create_glider_collision_cancel_puzzle_and_solution();
    assert_eq!(verify(&cancel, &gliders2), Ok(16));
}

#[test]
fn collision_outcome_board_checked_against_strict_puzzle() {
    let (mut square, gliders) = create_glider_collision_square_puzzle_and_solution();
    let outcome = gliders.advance(16);
    // The outcome is stable, so fourteen more steps still meet the final conditions,
    // once the initial conditions are not enforced.
    square.enforce_initial_conditions = false;
    assert_eq!(verify(&square, &outcome), Ok(14));
    square.enforce_initial_conditions = true;
    assert_eq!(verify(&square, &outcome), Err(VerificationError::InitialConditionsNotMet));
}

#[test]
fn still_patterns_do_not_reach_the_collision_outcome() {
    let (square, _) = create_glider_collision_square_puzzle_and_solution();
    // Five cells in each starting area, as the initial conditions ask, but two boats
    // that stay as they are.
    let boats = board(
        12,
        &[(1, 1), (2, 1), (1, 2), (3, 2), (2, 3), (8, 8), (9, 8), (8, 9), (10, 9), (9, 10)],
    );
    assert!(boats.advance(14) == boats);
    assert_eq!(verify(&square, &boats), Err(VerificationError::FinalConditionsNotReached));
}
