use gol_puzzles::board::{Board, Position};
use gol_puzzles::catalog::{get_puzzles, PuzzleKind, PuzzleStatus};
use gol_puzzles::condition::{evaluate_all, Condition};
use gol_puzzles::puzzle::{verify, Difficulty};

#[test]
fn status_is_active_only_for_active() {
    assert!(PuzzleStatus::Active.is_active());
    assert!(!PuzzleStatus::Draft.is_active());
    assert!(!PuzzleStatus::Retired.is_active());
}

#[test]
fn listing_leaves_out_drafts_unless_asked() {
    let active = get_puzzles(false, None);
    let all = get_puzzles(true, None);
    assert_eq!(all.len(), 18);
    assert_eq!(active.len(), 17);
    assert!(!active.contains(&PuzzleKind::RobotFace));
    assert!(all.contains(&PuzzleKind::RobotFace));
    assert_eq!(all[0].name(), "01_block");
    assert_eq!(all[17].name(), "43_glider_double_reflector");
}

#[test]
fn listing_filters_by_name() {
    let gliders: Vec<&str> = get_puzzles(false, Some("glider")).iter().map(|k| k.name()).collect();
    assert_eq!(
        gliders,
        vec![
            "20_glider_migration",
            "23_glider_collision_square",
            "24_glider_collision_cancel",
            "41_glider_reflector_1",
            "42_glider_reflector_2",
            "43_glider_double_reflector",
        ]
    );
    assert_eq!(get_puzzles(false, Some("robot")), vec![]);
    assert_eq!(get_puzzles(true, Some("robot")), vec![PuzzleKind::RobotFace]);
    assert_eq!(get_puzzles(true, Some("")).len(), 18);
    assert_eq!(get_puzzles(true, Some("nothing")), vec![]);
}

#[test]
fn every_solution_verifies_with_its_hints() {
    for kind in get_puzzles(true, None) {
        let (mut puzzle, solution) = kind.create();
        assert_eq!(puzzle.size, solution.size, "{}", kind.name());
        puzzle.enforce_initial_conditions = true;
        let steps = verify(&puzzle, &solution);
        assert!(steps.is_ok(), "{}: {:?}", kind.name(), steps);
        let steps = steps.unwrap();
        assert!(puzzle.minimal_steps <= steps && steps <= puzzle.maximal_steps);
        assert!(evaluate_all(&puzzle.initial_conditions, &solution), "{}", kind.name());
    }
}

#[test]
fn catalog_difficulties_and_titles() {
    let (block, _) = PuzzleKind::Block.create();
    assert_eq!(block.title, "Block");
    assert_eq!(block.difficulty, Difficulty::Tutorial);
    let (four, _) = PuzzleKind::FourBlinkersWithInitialConditions.create();
    assert_eq!(four.title, "Four Blinkers 2");
    assert_eq!(four.difficulty, Difficulty::Medium);
    assert!(four.enforce_initial_conditions);
    let (reflector, _) = PuzzleKind::GliderDoubleReflector.create();
    assert_eq!(reflector.difficulty, Difficulty::Hard);
    assert!(Difficulty::Tutorial < Difficulty::Easy);
    assert!(Difficulty::Medium < Difficulty::Hard);
}

#[test]
fn beehive_hint_drops_two_cells() {
    let (puzzle, solution) = PuzzleKind::Beehive.create();
    assert_eq!(puzzle.final_conditions.len(), 7);
    assert_eq!(puzzle.initial_conditions.len(), 5);
    assert_eq!(puzzle.initial_conditions[..4], puzzle.final_conditions[..4]);
    assert_eq!(puzzle.initial_conditions[4], puzzle.final_conditions[6]);
    assert_eq!(verify(&puzzle, &solution), Ok(1));
}

#[test]
fn every_puzzle_passes_its_self_check() {
    for kind in get_puzzles(true, None) {
        let (puzzle, solution) = kind.create();
        let checked = kind.create_checked();
        assert!(checked.is_ok(), "{}: {:?}", kind.name(), checked.err());
        let (p, b, steps) = checked.unwrap();
        assert_eq!(p.enforce_initial_conditions, puzzle.enforce_initial_conditions);
        assert!(b == solution);
        assert_eq!(verify(&p, &b), Ok(steps));
    }
}

#[test]
fn double_reflector_hints_leave_the_glider_free() {
    let (puzzle, solution) = PuzzleKind::GliderDoubleReflector.create();
    let exact = solution.to_exactly_matching_conditions();
    assert_eq!(puzzle.initial_conditions.len(), 2 + exact.len() - 5);
    assert_eq!(puzzle.initial_conditions[2..14], exact[..12]);
    assert_eq!(puzzle.initial_conditions[14..], exact[17..]);
    // The dropped entries are exactly the glider's five cells.
    for c in &exact[12..17] {
        match c {
            Condition::TestPosition { position, .. } => assert!((19..22).contains(&position.x)),
            _ => panic!("expected a cell test"),
        }
    }
    assert_eq!(puzzle.final_conditions, puzzle.initial_conditions);
}

#[test]
fn blinker_board_is_the_flat_phase() {
    let (puzzle, solution) = PuzzleKind::Blinker.create();
    let flat = Board::with_live_cells(
        7,
        vec![Position { x: 2, y: 3 }, Position { x: 3, y: 3 }, Position { x: 4, y: 3 }],
    );
    assert!(solution == flat);
    assert_eq!(puzzle.initial_conditions.len(), 2);
    assert_eq!(verify(&puzzle, &solution), Ok(1));
}

#[test]
fn second_four_blinkers_puzzle_differs_only_in_name_flags_and_difficulty() {
    let (first, b1) = PuzzleKind::FourBlinkers.create();
    let (second, b2) = PuzzleKind::FourBlinkersWithInitialConditions.create();
    assert!(b1 == b2);
    assert_eq!(b1.live_cells, b2.live_cells);
    assert_eq!(second.title, "Four Blinkers 2");
    assert_eq!(first.initial_conditions, second.initial_conditions);
    assert_eq!(first.final_conditions, second.final_conditions);
    assert_eq!(first.final_conditions, b1.advance(10).to_exactly_matching_conditions());
    assert!(!first.enforce_initial_conditions && second.enforce_initial_conditions);
    assert_eq!(verify(&second, &b2), Ok(10));
}
