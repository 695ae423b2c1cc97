use vstd::prelude::*;

use crate::board::{
    cells_of, generation, lemma_cells_of_in_grid, lemma_cells_of_index, lemma_cells_of_len, step,
    Board, Position,
};
use crate::condition::{all_hold, copy_conditions, count_in_rect, in_rect, Condition};
use crate::laws::{
    lemma_board_meets_its_exact_conditions, lemma_cells_meet_their_exact_conditions,
    lemma_count_whole_grid, lemma_generation_steps,
};
use crate::puzzle::{Difficulty, Puzzle, VerificationError};
use core::ops::Range;

verus! {

/// The board meets the puzzle's initial conditions, and meets its final conditions after
/// the puzzle's least number of steps.
pub open spec fn self_checks(p: Puzzle, b: Board) -> bool {
    &&& all_hold(p.initial_conditions@, b.live_set())
    &&& p.solved_at(b.size as int, b.live_set(), p.minimal_steps as int)
}

/// The position `(x, y)`.
pub open spec fn pos(x: u16, y: u16) -> Position {
    Position { x, y }
}

/// The test that the cell at `p` is live.
pub open spec fn live(p: Position) -> Condition {
    Condition::TestPosition { position: p, is_live: true }
}

/// The count of live cells in `x0..x1` by `y0..y1` between `min` and `max`.
pub open spec fn rect(x0: u16, x1: u16, y0: u16, y1: u16, min: u32, max: u32) -> Condition {
    Condition::TestRectangle {
        x_range: Range { start: x0, end: x1 },
        y_range: Range { start: y0, end: y1 },
        min_live_count: min,
        max_live_count: max,
    }
}

/// A well-formed board for a puzzle of side `size`, whose window is the single step
/// `steps`, with the given flags and difficulty.
pub open spec fn shaped(
    p: Puzzle,
    b: Board,
    size: u16,
    steps: u16,
    enforce: bool,
    strict: bool,
    difficulty: Difficulty,
) -> bool {
    &&& b.wf()
    &&& b.size == size
    &&& p.size == size
    &&& p.minimal_steps == steps
    &&& p.maximal_steps == steps
    &&& p.enforce_initial_conditions == enforce
    &&& p.is_strict == strict
    &&& p.difficulty == difficulty
}

/// The puzzle's title and summary, and no metadata.
pub open spec fn named(p: Puzzle, title: Seq<char>, summary: Seq<char>) -> bool {
    &&& p.title@ == title
    &&& p.summary@ == summary
    &&& p.metadata@ == Seq::<char>::empty()
}

/// The conditions `conds` are the exact-match conditions of the board of side `size`
/// whose live cells are `cells`. That board is unique: a well-formed board lists its
/// cells in a fixed order.
pub open spec fn exact_for(conds: Seq<Condition>, size: u16, cells: Set<(int, int)>) -> bool {
    exists|f: Board|
        f.wf() && f.size == size && f.live_set() == cells && conds == f.exact_conditions()
}

/// The final conditions of `p` are the exact-match conditions of the board that `b`
/// becomes after `k` steps.
pub open spec fn final_after(p: Puzzle, b: Board, k: nat) -> bool {
    exact_for(p.final_conditions@, b.size, generation(b.size as int, b.live_set(), k))
}

/// The block puzzle: a stable 2x2 block in the middle of the board.
pub open spec fn block_puzzle(p: Puzzle, b: Board) -> bool {
    &&& named(p, "Block"@, "Create a stable 2x2 block pattern in the center of the board"@)
    &&& shaped(p, b, 8, 1, false, false, Difficulty::Tutorial)
    &&& b.live_set() == cells_of(seq![
        pos(3, 3), pos(3, 4), pos(4, 3), pos(4, 4)
    ])
    &&& b.live_cells@.len() == 4
    &&& p.initial_conditions@ == seq![rect(0, 8, 0, 8, 4, 4)]
    &&& p.final_conditions@ == b.exact_conditions()
}

/// The beehive puzzle: a stable six-cell hexagon.
pub open spec fn beehive_puzzle(p: Puzzle, b: Board) -> bool {
    &&& named(p, "Beehive"@, "Create a stable beehive pattern (6-cell hexagonal shape)"@)
    &&& shaped(p, b, 9, 1, false, false, Difficulty::Tutorial)
    &&& b.live_set() == cells_of(seq![
        pos(3, 2), pos(4, 2), pos(2, 3), pos(5, 3), pos(3, 4), pos(4, 4)
    ])
    &&& b.live_cells@.len() == 6
    &&& p.initial_conditions@ == b.exact_conditions().remove(5).remove(4)
    &&& p.final_conditions@ == b.exact_conditions()
}

/// The loaf puzzle: a stable seven-cell loaf.
pub open spec fn loaf_puzzle(p: Puzzle, b: Board) -> bool {
    &&& named(p, "Loaf"@, "Create a stable loaf pattern (7-cell bread loaf shape)"@)
    &&& shaped(p, b, 10, 1, false, false, Difficulty::Tutorial)
    &&& b.live_set() == cells_of(seq![
        pos(3, 2), pos(4, 2), pos(2, 3), pos(5, 3), pos(3, 4), pos(5, 4), pos(4, 5)
    ])
    &&& b.live_cells@.len() == 7
    &&& p.initial_conditions@ == b.exact_conditions().remove(6).remove(5)
    &&& p.final_conditions@ == b.exact_conditions()
}

/// The boat puzzle: a stable five-cell boat.
pub open spec fn boat_puzzle(p: Puzzle, b: Board) -> bool {
    &&& named(p, "Boat"@, "Create a stable boat pattern (5-cell boat shape)"@)
    &&& shaped(p, b, 8, 1, false, false, Difficulty::Tutorial)
    &&& b.live_set() == cells_of(seq![
        pos(2, 2), pos(3, 2), pos(2, 3), pos(4, 3), pos(3, 4)
    ])
    &&& b.live_cells@.len() == 5
    &&& p.initial_conditions@ == b.exact_conditions().remove(4).remove(3)
    &&& p.final_conditions@ == b.exact_conditions()
}

/// The tub puzzle: a stable four-cell hollow square.
pub open spec fn tub_puzzle(p: Puzzle, b: Board) -> bool {
    &&& named(p, "Tub"@, "Create a stable tub pattern (4-cell hollow square)"@)
    &&& shaped(p, b, 7, 1, false, false, Difficulty::Tutorial)
    &&& b.live_set() == cells_of(seq![
        pos(3, 2), pos(2, 3), pos(4, 3), pos(3, 4)
    ])
    &&& b.live_cells@.len() == 4
    &&& p.initial_conditions@ == b.exact_conditions().remove(3).remove(2)
    &&& p.final_conditions@ == b.exact_conditions()
}

/// The blinker puzzle: the three-cell line that turns a quarter every step.
pub open spec fn blinker_puzzle(p: Puzzle, b: Board) -> bool {
    &&& named(p, "Blinker"@, "Create a blinker oscillator pattern (3-cell vertical line that oscillates)"@)
    &&& shaped(p, b, 7, 1, false, false, Difficulty::Tutorial)
    &&& b.live_set() == set![
        (2int, 3int), (3int, 3int), (4int, 3int)
    ]
    &&& p.initial_conditions@ == b.exact_conditions().remove(2).remove(0)
    &&& exact_for(
        p.final_conditions@,
        7,
        cells_of(seq![
            pos(3, 2), pos(3, 3), pos(3, 4)
        ]),
    )
}

/// The beacon puzzle: two blocks that blink along a diagonal.
pub open spec fn beacon_puzzle(p: Puzzle, b: Board) -> bool {
    &&& named(p, "Beacon"@, "Create a beacon oscillator pattern (two 2x2 blocks that blink diagonally)"@)
    &&& shaped(p, b, 8, 1, false, false, Difficulty::Easy)
    &&& b.live_set() == set![
        (2int, 2int), (2int, 3int), (3int, 2int), (4int, 5int), (5int, 4int),
        (5int, 5int)
    ]
    &&& p.initial_conditions@ == b.exact_conditions().remove(5).remove(0)
    &&& exact_for(
        p.final_conditions@,
        8,
        cells_of(seq![
            pos(2, 2), pos(3, 2), pos(2, 3), pos(3, 3), pos(4, 4), pos(5, 4), pos(4, 5),
            pos(5, 5)
        ]),
    )
}

/// The clock puzzle: a six-cell oscillator.
pub open spec fn clock_puzzle(p: Puzzle, b: Board) -> bool {
    &&& named(p, "Clock"@, "Create a clock oscillator pattern (period-4 oscillator)"@)
    &&& shaped(p, b, 8, 1, false, false, Difficulty::Easy)
    &&& b.live_set() == set![
        (2int, 4int), (3int, 2int), (3int, 4int), (4int, 3int), (4int, 5int),
        (5int, 3int)
    ]
    &&& p.initial_conditions@ == b.exact_conditions().remove(5).remove(0)
    &&& exact_for(
        p.final_conditions@,
        8,
        cells_of(seq![
            pos(4, 2), pos(2, 3), pos(4, 3), pos(3, 4), pos(5, 4), pos(3, 5)
        ]),
    )
}

/// The first four blinkers puzzle: six cells that grow into four blinkers.
pub open spec fn four_blinkers_puzzle(p: Puzzle, b: Board) -> bool {
    &&& named(p, "Four Blinkers 1"@, "Create four blinkers from very few cells"@)
    &&& shaped(p, b, 16, 10, false, false, Difficulty::Easy)
    &&& b.live_set() == cells_of(seq![
        pos(7, 6), pos(5, 7), pos(6, 7), pos(8, 7), pos(9, 7), pos(7, 8)
    ])
    &&& b.live_cells@.len() == 6
    &&& p.initial_conditions@ == b.exact_conditions().remove(3).remove(0)
    &&& final_after(p, b, 10)
}

/// The second four blinkers puzzle: the first one, harder, with its hints enforced.
pub open spec fn four_blinkers_with_initial_conditions_puzzle(p: Puzzle, b: Board) -> bool {
    &&& named(p, "Four Blinkers 2"@, "Create four blinkers from very few cells (strict variant)."@)
    &&& shaped(p, b, 16, 10, true, false, Difficulty::Medium)
    &&& b.live_set() == cells_of(seq![
        pos(7, 6), pos(5, 7), pos(6, 7), pos(8, 7), pos(9, 7), pos(7, 8)
    ])
    &&& b.live_cells@.len() == 6
    &&& p.initial_conditions@ == b.exact_conditions().remove(3).remove(0)
    &&& final_after(p, b, 10)
}

/// The robot face puzzle: seven cells that grow into a face.
pub open spec fn robot_face_puzzle(p: Puzzle, b: Board) -> bool {
    &&& named(p, "Robot face"@, "Create a robot-like face from very few cells"@)
    &&& shaped(p, b, 60, 174, true, false, Difficulty::Easy)
    &&& b.live_set() == cells_of(seq![
        pos(28, 28), pos(29, 28), pos(30, 28), pos(28, 29), pos(30, 29), pos(28, 30),
        pos(30, 30)
    ])
    &&& b.live_cells@.len() == 7
    &&& p.initial_conditions@ == b.exact_conditions().remove(3)
    &&& final_after(p, b, 180)
}

/// The first glider collision puzzle: two gliders collide into a square.
pub open spec fn glider_collision_square_puzzle(p: Puzzle, b: Board) -> bool {
    &&& named(p, "Glider Collision 1"@, "Make two gliders collide and create a square"@)
    &&& shaped(p, b, 12, 14, true, true, Difficulty::Medium)
    &&& b.live_set() == cells_of(seq![
        pos(2, 1), pos(3, 2), pos(1, 3), pos(2, 3), pos(3, 3), pos(9, 10), pos(8, 9),
        pos(10, 8), pos(9, 8), pos(8, 8)
    ])
    &&& b.live_cells@.len() == 10
    &&& p.initial_conditions@ == seq![rect(0, 5, 0, 5, 5, 5), rect(7, 12, 7, 12, 5, 5)]
    &&& final_after(p, b, 16)
}

/// The second glider collision puzzle: two gliders cancel each other out.
pub open spec fn glider_collision_cancel_puzzle(p: Puzzle, b: Board) -> bool {
    &&& named(p, "Glider Collision 2"@, "Make two gliders collide and cancel each other out"@)
    &&& shaped(p, b, 12, 16, true, true, Difficulty::Medium)
    &&& b.live_set() == cells_of(seq![
        pos(2, 1), pos(3, 2), pos(1, 3), pos(2, 3), pos(3, 3), pos(8, 9), pos(7, 8),
        pos(9, 7), pos(8, 7), pos(7, 7)
    ])
    &&& b.live_cells@.len() == 10
    &&& p.initial_conditions@ == seq![rect(0, 5, 0, 5, 5, 5), rect(7, 12, 7, 12, 5, 5)]
    &&& final_after(p, b, 16)
}

/// The glider migration puzzle: a glider travels from the top-left square to the bottom-right one.
pub open spec fn glider_migration_puzzle(p: Puzzle, b: Board) -> bool {
    &&& named(p, "Glider Migration"@, "Guide a glider from the top-left square to the bottom-right square"@)
    &&& shaped(p, b, 16, 40, false, false, Difficulty::Easy)
    &&& b.live_set() == cells_of(seq![
        pos(2, 1), pos(3, 2), pos(1, 3), pos(2, 3), pos(3, 3)
    ])
    &&& b.live_cells@.len() == 5
    &&& p.initial_conditions@ == seq![
        live(pos(3, 3)),
        rect(0, 8, 0, 8, 5, 5),
        rect(8, 16, 0, 8, 0, 0),
        rect(0, 16, 8, 16, 0, 0),
    ]
    &&& final_after(p, b, 40)
}

/// The eater puzzle: an eater swallows a glider and stays alone.
pub open spec fn eater_puzzle(p: Puzzle, b: Board) -> bool {
    &&& named(p, "Eater"@, "Place an eater pattern to consume an approaching glider"@)
    &&& shaped(p, b, 16, 26, true, true, Difficulty::Medium)
    &&& b.live_set() == cells_of(seq![
        pos(2, 1), pos(3, 2), pos(1, 3), pos(2, 3), pos(3, 3), pos(10, 10),
        pos(11, 10), pos(10, 11), pos(12, 11), pos(12, 12), pos(12, 13), pos(13, 13)
    ])
    &&& b.live_cells@.len() == 12
    &&& exact_for(
        p.final_conditions@,
        16,
        cells_of(seq![
            pos(10, 10), pos(11, 10), pos(10, 11), pos(12, 11), pos(12, 12), pos(12, 13),
            pos(13, 13)
        ]),
    )
    &&& p.initial_conditions@ == p.final_conditions@.drop_last().push(rect(0, 6, 0, 6, 5, 5)).push(
        rect(0, 16, 0, 16, 12, 12),
    )
}

/// The first glider reflector puzzle: a pentadecathlon turns a glider around.
pub open spec fn glider_reflector_1_puzzle(p: Puzzle, b: Board) -> bool {
    &&& named(p, "Glider Reflector 1"@, "Reflect a glider by 180 degrees"@)
    &&& shaped(p, b, 24, 30, true, true, Difficulty::Medium)
    &&& b.live_set() == generation(24, cells_of(seq![
        pos(2, 10), pos(3, 10), pos(3, 11), pos(4, 11), pos(2, 12), pos(11, 10),
        pos(12, 10), pos(13, 9), pos(13, 11), pos(14, 10), pos(15, 10), pos(16, 10),
        pos(17, 10), pos(18, 9), pos(18, 11), pos(19, 10), pos(20, 10)
    ]), 1)
    &&& exists|h: Board|
        h.wf() && h.size == 24 && h.live_set() == generation(
            24,
            cells_of(seq![
                pos(11, 10), pos(12, 10), pos(13, 9), pos(13, 11), pos(14, 10), pos(15, 10),
                pos(16, 10), pos(17, 10), pos(18, 9), pos(18, 11), pos(19, 10), pos(20, 10)
            ]),
            1,
        ) && p.initial_conditions@ == h.exact_conditions().drop_last().push(
            rect(1, 5, 10, 14, 5, 5),
        ).push(rect(0, 24, 0, 24, 27, 27))
    &&& final_after(p, b, 30)
}

/// The second glider reflector puzzle: the first one with the glider in another phase.
pub open spec fn glider_reflector_2_puzzle(p: Puzzle, b: Board) -> bool {
    &&& named(p, "Glider Reflector 2"@, "Reflect a glider by 180 degrees"@)
    &&& shaped(p, b, 24, 30, true, false, Difficulty::Hard)
    &&& b.live_set() == cells_of(seq![
        pos(2, 10), pos(3, 10), pos(3, 11), pos(4, 11), pos(2, 12), pos(11, 10),
        pos(12, 10), pos(13, 9), pos(13, 11), pos(14, 10), pos(15, 10), pos(16, 10),
        pos(17, 10), pos(18, 9), pos(18, 11), pos(19, 10), pos(20, 10)
    ])
    &&& b.live_cells@.len() == 17
    &&& exists|h: Board|
        h.wf() && h.size == 24 && h.live_set() == cells_of(
            seq![
            pos(11, 10), pos(12, 10), pos(13, 9), pos(13, 11), pos(14, 10), pos(15, 10),
            pos(16, 10), pos(17, 10), pos(18, 9), pos(18, 11), pos(19, 10), pos(20, 10)
        ],
        ) && p.initial_conditions@ == h.exact_conditions().drop_last().push(
            rect(1, 5, 10, 14, 5, 5),
        ).push(rect(0, 24, 0, 24, 17, 17))
    &&& final_after(p, b, 30)
}

/// The double reflector puzzle: two pentadecathlons bounce a glider back and forth.
pub open spec fn glider_double_reflector_puzzle(p: Puzzle, b: Board) -> bool {
    &&& named(p, "Glider Double Reflector"@, "Use two reflectors to bounce a glider indefinitely"@)
    &&& shaped(p, b, 41, 60, true, false, Difficulty::Hard)
    &&& b.live_set() == cells_of(seq![
        pos(19, 10), pos(20, 10), pos(20, 11), pos(21, 11), pos(19, 12), pos(28, 10),
        pos(29, 10), pos(30, 9), pos(30, 11), pos(31, 10), pos(32, 10), pos(33, 10),
        pos(34, 10), pos(35, 9), pos(35, 11), pos(36, 10), pos(37, 10), pos(3, 14),
        pos(4, 14), pos(5, 13), pos(5, 15), pos(6, 14), pos(7, 14), pos(8, 14),
        pos(9, 14), pos(10, 13), pos(10, 15), pos(11, 14), pos(12, 14)
    ])
    &&& b.live_cells@.len() == 29
    &&& p.initial_conditions@ == seq![live(pos(20, 11)), rect(19, 22, 10, 13, 5, 5)] + (
    b.exact_conditions().subrange(0, 12) + b.exact_conditions().subrange(17, 30))
    &&& p.final_conditions@ == p.initial_conditions@
}


/// The vertical blinker lies flat after one step.
#[verifier::spinoff_prover]
#[verifier::rlimit(100)]
proof fn lemma_blinker_phase()
    ensures
        step(7, cells_of(seq![pos(3, 2), pos(3, 3), pos(3, 4)])) == set![(2int, 3int), (3int, 3int), (4int, 3int)],
        set![(2int, 3int), (3int, 3int), (4int, 3int)].len() == 3,
{
    reveal_with_fuel(cells_of, 4);
    reveal_with_fuel(generation, 2);
    assert(cells_of(seq![pos(3, 2), pos(3, 3), pos(3, 4)]) =~= set![(3int, 2int), (3int, 3int), (3int, 4int)]);
    assert(step(7, set![(3int, 2int), (3int, 3int), (3int, 4int)]) =~= set![(2int, 3int), (3int, 3int), (4int, 3int)]);
}

/// The beacon loses its two inner corners after one step.
#[verifier::spinoff_prover]
#[verifier::rlimit(100)]
proof fn lemma_beacon_phase()
    ensures
        step(8, cells_of(seq![pos(2, 2), pos(3, 2), pos(2, 3), pos(3, 3), pos(4, 4), pos(5, 4), pos(4, 5), pos(5, 5)])) == set![(2int, 2int), (2int, 3int), (3int, 2int), (4int, 5int), (5int, 4int), (5int, 5int)],
        set![(2int, 2int), (2int, 3int), (3int, 2int), (4int, 5int), (5int, 4int), (5int, 5int)].len() == 6,
{
    reveal_with_fuel(cells_of, 9);
    reveal_with_fuel(generation, 2);
    assert(cells_of(seq![pos(2, 2), pos(3, 2), pos(2, 3), pos(3, 3), pos(4, 4), pos(5, 4), pos(4, 5), pos(5, 5)]) =~= set![(2int, 2int), (2int, 3int), (3int, 2int), (3int, 3int), (4int, 4int), (4int, 5int), (5int, 4int), (5int, 5int)]);
    assert(step(8, set![(2int, 2int), (2int, 3int), (3int, 2int), (3int, 3int), (4int, 4int), (4int, 5int), (5int, 4int), (5int, 5int)]) =~= set![(2int, 2int), (2int, 3int), (3int, 2int), (4int, 5int), (5int, 4int), (5int, 5int)]);
}

/// The clock after three steps.
#[verifier::spinoff_prover]
#[verifier::rlimit(100)]
proof fn lemma_clock_phase()
    ensures
        generation(8, cells_of(seq![pos(4, 2), pos(2, 3), pos(4, 3), pos(3, 4), pos(5, 4), pos(3, 5)]), 3) == set![(2int, 4int), (3int, 2int), (3int, 4int), (4int, 3int), (4int, 5int), (5int, 3int)],
        set![(2int, 4int), (3int, 2int), (3int, 4int), (4int, 3int), (4int, 5int), (5int, 3int)].len() == 6,
{
    reveal_with_fuel(cells_of, 7);
    reveal_with_fuel(generation, 4);
    assert(cells_of(seq![pos(4, 2), pos(2, 3), pos(4, 3), pos(3, 4), pos(5, 4), pos(3, 5)]) =~= set![(2int, 3int), (3int, 4int), (3int, 5int), (4int, 2int), (4int, 3int), (5int, 4int)]);
    assert(step(8, set![(2int, 3int), (3int, 4int), (3int, 5int), (4int, 2int), (4int, 3int), (5int, 4int)]) =~= set![(2int, 4int), (3int, 2int), (3int, 4int), (4int, 3int), (4int, 5int), (5int, 3int)]);
    assert(step(8, set![(2int, 4int), (3int, 2int), (3int, 4int), (4int, 3int), (4int, 5int), (5int, 3int)]) =~= set![(2int, 3int), (3int, 4int), (3int, 5int), (4int, 2int), (4int, 3int), (5int, 4int)]);
    assert(step(8, set![(2int, 3int), (3int, 4int), (3int, 5int), (4int, 2int), (4int, 3int), (5int, 4int)]) =~= set![(2int, 4int), (3int, 2int), (3int, 4int), (4int, 3int), (4int, 5int), (5int, 3int)]);
}

/// The block stays as it is.
#[verifier::spinoff_prover]
proof fn lemma_block_still()
    ensures
        cells_of(seq![ pos(3, 3), pos(3, 4), pos(4, 3), pos(4, 4) ]) == set![(3int, 3int), (3int, 4int), (4int, 3int), (4int, 4int)],
        step(8, set![(3int, 3int), (3int, 4int), (4int, 3int), (4int, 4int)]) == set![(3int, 3int), (3int, 4int), (4int, 3int), (4int, 4int)],
{
    reveal_with_fuel(cells_of, 5);
    assert(cells_of(seq![ pos(3, 3), pos(3, 4), pos(4, 3), pos(4, 4) ]) =~= set![(3int, 3int), (3int, 4int), (4int, 3int), (4int, 4int)]);
    assert(step(8, set![(3int, 3int), (3int, 4int), (4int, 3int), (4int, 4int)]) =~= set![(3int, 3int), (3int, 4int), (4int, 3int), (4int, 4int)]);
}

/// The board of the block puzzle meets its hints, and its final conditions after one step.
#[verifier::spinoff_prover]
#[verifier::rlimit(100)]
pub proof fn lemma_block_solution(p: Puzzle, b: Board)
    requires
        block_puzzle(p, b),
    ensures
        all_hold(p.initial_conditions@, b.live_set()),
        p.solved_at(8, b.live_set(), 1),
{
    lemma_block_still();
    lemma_generation_steps(8, b.live_set(), 0);
    lemma_board_meets_its_exact_conditions(b);
    lemma_cells_of_len(b.live_cells@);
    lemma_cells_of_in_grid(b.live_cells@, 8);
    lemma_count_whole_grid(8, b.live_set());
}

/// The beehive stays as it is.
#[verifier::spinoff_prover]
proof fn lemma_beehive_still()
    ensures
        cells_of(seq![ pos(3, 2), pos(4, 2), pos(2, 3), pos(5, 3), pos(3, 4), pos(4, 4) ]) == set![(2int, 3int), (3int, 2int), (3int, 4int), (4int, 2int), (4int, 4int), (5int, 3int)],
        step(9, set![(2int, 3int), (3int, 2int), (3int, 4int), (4int, 2int), (4int, 4int), (5int, 3int)]) == set![(2int, 3int), (3int, 2int), (3int, 4int), (4int, 2int), (4int, 4int), (5int, 3int)],
{
    reveal_with_fuel(cells_of, 7);
    assert(cells_of(seq![ pos(3, 2), pos(4, 2), pos(2, 3), pos(5, 3), pos(3, 4), pos(4, 4) ]) =~= set![(2int, 3int), (3int, 2int), (3int, 4int), (4int, 2int), (4int, 4int), (5int, 3int)]);
    assert(step(9, set![(2int, 3int), (3int, 2int), (3int, 4int), (4int, 2int), (4int, 4int), (5int, 3int)]) =~= set![(2int, 3int), (3int, 2int), (3int, 4int), (4int, 2int), (4int, 4int), (5int, 3int)]);
}

/// The board of the beehive puzzle meets its hints, and its final conditions after one step.
#[verifier::spinoff_prover]
#[verifier::rlimit(100)]
pub proof fn lemma_beehive_solution(p: Puzzle, b: Board)
    requires
        beehive_puzzle(p, b),
    ensures
        all_hold(p.initial_conditions@, b.live_set()),
        p.solved_at(9, b.live_set(), 1),
{
    lemma_beehive_still();
    lemma_generation_steps(9, b.live_set(), 0);
    lemma_board_meets_its_exact_conditions(b);
    let e = b.exact_conditions();
    assert forall|i: int| 0 <= i < p.initial_conditions@.len() implies #[trigger] p.initial_conditions@[i].holds(b.live_set()) by {
        assert(p.initial_conditions@.contains(p.initial_conditions@[i]));
    }
}

/// The loaf stays as it is.
#[verifier::spinoff_prover]
proof fn lemma_loaf_still()
    ensures
        cells_of(seq![ pos(3, 2), pos(4, 2), pos(2, 3), pos(5, 3), pos(3, 4), pos(5, 4), pos(4, 5) ]) == set![(2int, 3int), (3int, 2int), (3int, 4int), (4int, 2int), (4int, 5int), (5int, 3int), (5int, 4int)],
        step(10, set![(2int, 3int), (3int, 2int), (3int, 4int), (4int, 2int), (4int, 5int), (5int, 3int), (5int, 4int)]) == set![(2int, 3int), (3int, 2int), (3int, 4int), (4int, 2int), (4int, 5int), (5int, 3int), (5int, 4int)],
{
    reveal_with_fuel(cells_of, 8);
    assert(cells_of(seq![ pos(3, 2), pos(4, 2), pos(2, 3), pos(5, 3), pos(3, 4), pos(5, 4), pos(4, 5) ]) =~= set![(2int, 3int), (3int, 2int), (3int, 4int), (4int, 2int), (4int, 5int), (5int, 3int), (5int, 4int)]);
    assert(step(10, set![(2int, 3int), (3int, 2int), (3int, 4int), (4int, 2int), (4int, 5int), (5int, 3int), (5int, 4int)]) =~= set![(2int, 3int), (3int, 2int), (3int, 4int), (4int, 2int), (4int, 5int), (5int, 3int), (5int, 4int)]);
}

/// The board of the loaf puzzle meets its hints, and its final conditions after one step.
#[verifier::spinoff_prover]
#[verifier::rlimit(100)]
pub proof fn lemma_loaf_solution(p: Puzzle, b: Board)
    requires
        loaf_puzzle(p, b),
    ensures
        all_hold(p.initial_conditions@, b.live_set()),
        p.solved_at(10, b.live_set(), 1),
{
    lemma_loaf_still();
    lemma_generation_steps(10, b.live_set(), 0);
    lemma_board_meets_its_exact_conditions(b);
    let e = b.exact_conditions();
    assert forall|i: int| 0 <= i < p.initial_conditions@.len() implies #[trigger] p.initial_conditions@[i].holds(b.live_set()) by {
        assert(p.initial_conditions@.contains(p.initial_conditions@[i]));
    }
}

/// The boat stays as it is.
#[verifier::spinoff_prover]
proof fn lemma_boat_still()
    ensures
        cells_of(seq![ pos(2, 2), pos(3, 2), pos(2, 3), pos(4, 3), pos(3, 4) ]) == set![(2int, 2int), (2int, 3int), (3int, 2int), (3int, 4int), (4int, 3int)],
        step(8, set![(2int, 2int), (2int, 3int), (3int, 2int), (3int, 4int), (4int, 3int)]) == set![(2int, 2int), (2int, 3int), (3int, 2int), (3int, 4int), (4int, 3int)],
{
    reveal_with_fuel(cells_of, 6);
    assert(cells_of(seq![ pos(2, 2), pos(3, 2), pos(2, 3), pos(4, 3), pos(3, 4) ]) =~= set![(2int, 2int), (2int, 3int), (3int, 2int), (3int, 4int), (4int, 3int)]);
    assert(step(8, set![(2int, 2int), (2int, 3int), (3int, 2int), (3int, 4int), (4int, 3int)]) =~= set![(2int, 2int), (2int, 3int), (3int, 2int), (3int, 4int), (4int, 3int)]);
}

/// The board of the boat puzzle meets its hints, and its final conditions after one step.
#[verifier::spinoff_prover]
#[verifier::rlimit(100)]
pub proof fn lemma_boat_solution(p: Puzzle, b: Board)
    requires
        boat_puzzle(p, b),
    ensures
        all_hold(p.initial_conditions@, b.live_set()),
        p.solved_at(8, b.live_set(), 1),
{
    lemma_boat_still();
    lemma_generation_steps(8, b.live_set(), 0);
    lemma_board_meets_its_exact_conditions(b);
    let e = b.exact_conditions();
    assert forall|i: int| 0 <= i < p.initial_conditions@.len() implies #[trigger] p.initial_conditions@[i].holds(b.live_set()) by {
        assert(p.initial_conditions@.contains(p.initial_conditions@[i]));
    }
}

/// The tub stays as it is.
#[verifier::spinoff_prover]
proof fn lemma_tub_still()
    ensures
        cells_of(seq![ pos(3, 2), pos(2, 3), pos(4, 3), pos(3, 4) ]) == set![(2int, 3int), (3int, 2int), (3int, 4int), (4int, 3int)],
        step(7, set![(2int, 3int), (3int, 2int), (3int, 4int), (4int, 3int)]) == set![(2int, 3int), (3int, 2int), (3int, 4int), (4int, 3int)],
{
    reveal_with_fuel(cells_of, 5);
    assert(cells_of(seq![ pos(3, 2), pos(2, 3), pos(4, 3), pos(3, 4) ]) =~= set![(2int, 3int), (3int, 2int), (3int, 4int), (4int, 3int)]);
    assert(step(7, set![(2int, 3int), (3int, 2int), (3int, 4int), (4int, 3int)]) =~= set![(2int, 3int), (3int, 2int), (3int, 4int), (4int, 3int)]);
}

/// The board of the tub puzzle meets its hints, and its final conditions after one step.
#[verifier::spinoff_prover]
#[verifier::rlimit(100)]
pub proof fn lemma_tub_solution(p: Puzzle, b: Board)
    requires
        tub_puzzle(p, b),
    ensures
        all_hold(p.initial_conditions@, b.live_set()),
        p.solved_at(7, b.live_set(), 1),
{
    lemma_tub_still();
    lemma_generation_steps(7, b.live_set(), 0);
    lemma_board_meets_its_exact_conditions(b);
    let e = b.exact_conditions();
    assert forall|i: int| 0 <= i < p.initial_conditions@.len() implies #[trigger] p.initial_conditions@[i].holds(b.live_set()) by {
        assert(p.initial_conditions@.contains(p.initial_conditions@[i]));
    }
}

/// The board of the blinker puzzle meets its hints, and its final conditions after one step.
pub proof fn lemma_blinker_solution(p: Puzzle, b: Board)
    requires
        blinker_puzzle(p, b),
    ensures
        all_hold(p.initial_conditions@, b.live_set()),
        p.solved_at(7, b.live_set(), 1),
{
    reveal_with_fuel(cells_of, 4);
    reveal_with_fuel(generation, 2);
    assert(step(7, set![(2int, 3int), (3int, 3int), (4int, 3int)]) =~= set![(3int, 2int), (3int, 3int), (3int, 4int)]);
    assert(cells_of(seq![pos(3, 2), pos(3, 3), pos(3, 4)]) =~= set![(3int, 2int), (3int, 3int), (3int, 4int)]);
    let f = choose|f: Board|
        f.wf() && f.size == 7 && f.live_set() == cells_of(seq![pos(3, 2), pos(3, 3), pos(3, 4)])
            && p.final_conditions@ == f.exact_conditions();
    lemma_board_meets_its_exact_conditions(f);
    lemma_blinker_phase();
    lemma_cells_of_len(b.live_cells@);
    lemma_board_meets_its_exact_conditions(b);
    assert forall|i: int| 0 <= i < p.initial_conditions@.len() implies #[trigger] p.initial_conditions@[i].holds(b.live_set()) by {
        assert(p.initial_conditions@.contains(p.initial_conditions@[i]));
    }
}

/// The board of the beacon puzzle meets its hints, and its final conditions after one step.
pub proof fn lemma_beacon_solution(p: Puzzle, b: Board)
    requires
        beacon_puzzle(p, b),
    ensures
        all_hold(p.initial_conditions@, b.live_set()),
        p.solved_at(8, b.live_set(), 1),
{
    reveal_with_fuel(cells_of, 9);
    reveal_with_fuel(generation, 2);
    assert(step(8, set![(2int, 2int), (2int, 3int), (3int, 2int), (4int, 5int), (5int, 4int), (5int, 5int)]) =~= set![(2int, 2int), (2int, 3int), (3int, 2int), (3int, 3int), (4int, 4int), (4int, 5int), (5int, 4int), (5int, 5int)]);
    assert(cells_of(seq![pos(2, 2), pos(3, 2), pos(2, 3), pos(3, 3), pos(4, 4), pos(5, 4), pos(4, 5), pos(5, 5)]) =~= set![(2int, 2int), (2int, 3int), (3int, 2int), (3int, 3int), (4int, 4int), (4int, 5int), (5int, 4int), (5int, 5int)]);
    let f = choose|f: Board|
        f.wf() && f.size == 8 && f.live_set() == cells_of(seq![pos(2, 2), pos(3, 2), pos(2, 3), pos(3, 3), pos(4, 4), pos(5, 4), pos(4, 5), pos(5, 5)])
            && p.final_conditions@ == f.exact_conditions();
    lemma_board_meets_its_exact_conditions(f);
    lemma_beacon_phase();
    lemma_cells_of_len(b.live_cells@);
    lemma_board_meets_its_exact_conditions(b);
    assert forall|i: int| 0 <= i < p.initial_conditions@.len() implies #[trigger] p.initial_conditions@[i].holds(b.live_set()) by {
        assert(p.initial_conditions@.contains(p.initial_conditions@[i]));
    }
}

/// The board of the clock puzzle meets its hints, and its final conditions after one step.
pub proof fn lemma_clock_solution(p: Puzzle, b: Board)
    requires
        clock_puzzle(p, b),
    ensures
        all_hold(p.initial_conditions@, b.live_set()),
        p.solved_at(8, b.live_set(), 1),
{
    reveal_with_fuel(cells_of, 7);
    reveal_with_fuel(generation, 2);
    assert(step(8, set![(2int, 4int), (3int, 2int), (3int, 4int), (4int, 3int), (4int, 5int), (5int, 3int)]) =~= set![(2int, 3int), (3int, 4int), (3int, 5int), (4int, 2int), (4int, 3int), (5int, 4int)]);
    assert(cells_of(seq![pos(4, 2), pos(2, 3), pos(4, 3), pos(3, 4), pos(5, 4), pos(3, 5)]) =~= set![(2int, 3int), (3int, 4int), (3int, 5int), (4int, 2int), (4int, 3int), (5int, 4int)]);
    let f = choose|f: Board|
        f.wf() && f.size == 8 && f.live_set() == cells_of(seq![pos(4, 2), pos(2, 3), pos(4, 3), pos(3, 4), pos(5, 4), pos(3, 5)])
            && p.final_conditions@ == f.exact_conditions();
    lemma_board_meets_its_exact_conditions(f);
    lemma_clock_phase();
    lemma_cells_of_len(b.live_cells@);
    lemma_board_meets_its_exact_conditions(b);
    assert forall|i: int| 0 <= i < p.initial_conditions@.len() implies #[trigger] p.initial_conditions@[i].holds(b.live_set()) by {
        assert(p.initial_conditions@.contains(p.initial_conditions@[i]));
    }
}

/// The gliders of the glider collision square, one step at a time: the first eight steps.
#[verifier::spinoff_prover]
proof fn lemma_glider_collision_square_first_steps(k: int)
    requires
        1 <= k <= 8,
    ensures
        k == 1 ==> step(12, set![(1int, 3int), (2int, 1int), (2int, 3int), (3int, 2int), (3int, 3int), (8int, 8int), (8int, 9int), (9int, 8int), (9int, 10int), (10int, 8int)]) == set![(1int, 2int), (2int, 3int), (2int, 4int), (3int, 2int), (3int, 3int), (8int, 8int), (8int, 9int), (9int, 7int), (9int, 8int), (10int, 9int)],
        k == 2 ==> step(12, set![(1int, 2int), (2int, 3int), (2int, 4int), (3int, 2int), (3int, 3int), (8int, 8int), (8int, 9int), (9int, 7int), (9int, 8int), (10int, 9int)]) == set![(1int, 3int), (2int, 4int), (3int, 2int), (3int, 3int), (3int, 4int), (8int, 7int), (8int, 8int), (8int, 9int), (9int, 7int), (10int, 8int)],
        k == 3 ==> step(12, set![(1int, 3int), (2int, 4int), (3int, 2int), (3int, 3int), (3int, 4int), (8int, 7int), (8int, 8int), (8int, 9int), (9int, 7int), (10int, 8int)]) == set![(2int, 2int), (2int, 4int), (3int, 3int), (3int, 4int), (4int, 3int), (7int, 8int), (8int, 7int), (8int, 8int), (9int, 7int), (9int, 9int)],
        k == 4 ==> step(12, set![(2int, 2int), (2int, 4int), (3int, 3int), (3int, 4int), (4int, 3int), (7int, 8int), (8int, 7int), (8int, 8int), (9int, 7int), (9int, 9int)]) == set![(2int, 4int), (3int, 2int), (3int, 4int), (4int, 3int), (4int, 4int), (7int, 7int), (7int, 8int), (8int, 7int), (8int, 9int), (9int, 7int)],
        k == 5 ==> step(12, set![(2int, 4int), (3int, 2int), (3int, 4int), (4int, 3int), (4int, 4int), (7int, 7int), (7int, 8int), (8int, 7int), (8int, 9int), (9int, 7int)]) == set![(2int, 3int), (3int, 4int), (3int, 5int), (4int, 3int), (4int, 4int), (7int, 7int), (7int, 8int), (8int, 6int), (8int, 7int), (9int, 8int)],
        k == 6 ==> step(12, set![(2int, 3int), (3int, 4int), (3int, 5int), (4int, 3int), (4int, 4int), (7int, 7int), (7int, 8int), (8int, 6int), (8int, 7int), (9int, 8int)]) == set![(2int, 4int), (3int, 5int), (4int, 3int), (4int, 4int), (4int, 5int), (7int, 6int), (7int, 7int), (7int, 8int), (8int, 6int), (9int, 7int)],
        k == 7 ==> step(12, set![(2int, 4int), (3int, 5int), (4int, 3int), (4int, 4int), (4int, 5int), (7int, 6int), (7int, 7int), (7int, 8int), (8int, 6int), (9int, 7int)]) == set![(3int, 3int), (3int, 5int), (4int, 4int), (4int, 5int), (5int, 4int), (6int, 7int), (7int, 6int), (7int, 7int), (8int, 6int), (8int, 8int)],
        k == 8 ==> step(12, set![(3int, 3int), (3int, 5int), (4int, 4int), (4int, 5int), (5int, 4int), (6int, 7int), (7int, 6int), (7int, 7int), (8int, 6int), (8int, 8int)]) == set![(3int, 5int), (4int, 3int), (4int, 5int), (5int, 4int), (5int, 5int), (6int, 6int), (6int, 7int), (7int, 6int), (7int, 8int), (8int, 6int)],
{
    if k == 1 {
        assert(step(12, set![(1int, 3int), (2int, 1int), (2int, 3int), (3int, 2int), (3int, 3int), (8int, 8int), (8int, 9int), (9int, 8int), (9int, 10int), (10int, 8int)]) =~= set![(1int, 2int), (2int, 3int), (2int, 4int), (3int, 2int), (3int, 3int), (8int, 8int), (8int, 9int), (9int, 7int), (9int, 8int), (10int, 9int)]);
    } else if k == 2 {
        assert(step(12, set![(1int, 2int), (2int, 3int), (2int, 4int), (3int, 2int), (3int, 3int), (8int, 8int), (8int, 9int), (9int, 7int), (9int, 8int), (10int, 9int)]) =~= set![(1int, 3int), (2int, 4int), (3int, 2int), (3int, 3int), (3int, 4int), (8int, 7int), (8int, 8int), (8int, 9int), (9int, 7int), (10int, 8int)]);
    } else if k == 3 {
        assert(step(12, set![(1int, 3int), (2int, 4int), (3int, 2int), (3int, 3int), (3int, 4int), (8int, 7int), (8int, 8int), (8int, 9int), (9int, 7int), (10int, 8int)]) =~= set![(2int, 2int), (2int, 4int), (3int, 3int), (3int, 4int), (4int, 3int), (7int, 8int), (8int, 7int), (8int, 8int), (9int, 7int), (9int, 9int)]);
    } else if k == 4 {
        assert(step(12, set![(2int, 2int), (2int, 4int), (3int, 3int), (3int, 4int), (4int, 3int), (7int, 8int), (8int, 7int), (8int, 8int), (9int, 7int), (9int, 9int)]) =~= set![(2int, 4int), (3int, 2int), (3int, 4int), (4int, 3int), (4int, 4int), (7int, 7int), (7int, 8int), (8int, 7int), (8int, 9int), (9int, 7int)]);
    } else if k == 5 {
        assert(step(12, set![(2int, 4int), (3int, 2int), (3int, 4int), (4int, 3int), (4int, 4int), (7int, 7int), (7int, 8int), (8int, 7int), (8int, 9int), (9int, 7int)]) =~= set![(2int, 3int), (3int, 4int), (3int, 5int), (4int, 3int), (4int, 4int), (7int, 7int), (7int, 8int), (8int, 6int), (8int, 7int), (9int, 8int)]);
    } else if k == 6 {
        assert(step(12, set![(2int, 3int), (3int, 4int), (3int, 5int), (4int, 3int), (4int, 4int), (7int, 7int), (7int, 8int), (8int, 6int), (8int, 7int), (9int, 8int)]) =~= set![(2int, 4int), (3int, 5int), (4int, 3int), (4int, 4int), (4int, 5int), (7int, 6int), (7int, 7int), (7int, 8int), (8int, 6int), (9int, 7int)]);
    } else if k == 7 {
        assert(step(12, set![(2int, 4int), (3int, 5int), (4int, 3int), (4int, 4int), (4int, 5int), (7int, 6int), (7int, 7int), (7int, 8int), (8int, 6int), (9int, 7int)]) =~= set![(3int, 3int), (3int, 5int), (4int, 4int), (4int, 5int), (5int, 4int), (6int, 7int), (7int, 6int), (7int, 7int), (8int, 6int), (8int, 8int)]);
    } else if k == 8 {
        assert(step(12, set![(3int, 3int), (3int, 5int), (4int, 4int), (4int, 5int), (5int, 4int), (6int, 7int), (7int, 6int), (7int, 7int), (8int, 6int), (8int, 8int)]) =~= set![(3int, 5int), (4int, 3int), (4int, 5int), (5int, 4int), (5int, 5int), (6int, 6int), (6int, 7int), (7int, 6int), (7int, 8int), (8int, 6int)]);
    }
}

/// The gliders of the glider collision square, one step at a time: the second eight steps.
#[verifier::spinoff_prover]
proof fn lemma_glider_collision_square_second_steps(k: int)
    requires
        9 <= k <= 16,
    ensures
        k == 9 ==> step(12, set![(3int, 5int), (4int, 3int), (4int, 5int), (5int, 4int), (5int, 5int), (6int, 6int), (6int, 7int), (7int, 6int), (7int, 8int), (8int, 6int)]) == set![(3int, 4int), (4int, 5int), (4int, 6int), (5int, 4int), (5int, 5int), (6int, 6int), (6int, 7int), (7int, 5int), (7int, 6int), (8int, 7int)],
        k == 10 ==> step(12, set![(3int, 4int), (4int, 5int), (4int, 6int), (5int, 4int), (5int, 5int), (6int, 6int), (6int, 7int), (7int, 5int), (7int, 6int), (8int, 7int)]) == set![(3int, 5int), (4int, 6int), (5int, 4int), (5int, 7int), (6int, 4int), (6int, 7int), (7int, 5int), (8int, 6int)],
        k == 11 ==> step(12, set![(3int, 5int), (4int, 6int), (5int, 4int), (5int, 7int), (6int, 4int), (6int, 7int), (7int, 5int), (8int, 6int)]) == set![(4int, 5int), (4int, 6int), (5int, 5int), (5int, 6int), (5int, 7int), (6int, 4int), (6int, 5int), (6int, 6int), (7int, 5int), (7int, 6int)],
        k == 12 ==> step(12, set![(4int, 5int), (4int, 6int), (5int, 5int), (5int, 6int), (5int, 7int), (6int, 4int), (6int, 5int), (6int, 6int), (7int, 5int), (7int, 6int)]) == set![(4int, 5int), (4int, 7int), (5int, 7int), (6int, 4int), (7int, 4int), (7int, 6int)],
        k == 13 ==> step(12, set![(4int, 5int), (4int, 7int), (5int, 7int), (6int, 4int), (7int, 4int), (7int, 6int)]) == set![(4int, 6int), (5int, 6int), (6int, 5int), (7int, 5int)],
        k == 14 ==> step(12, set![(4int, 6int), (5int, 6int), (6int, 5int), (7int, 5int)]) == set![(5int, 5int), (5int, 6int), (6int, 5int), (6int, 6int)],
        k == 15 ==> step(12, set![(5int, 5int), (5int, 6int), (6int, 5int), (6int, 6int)]) == set![(5int, 5int), (5int, 6int), (6int, 5int), (6int, 6int)],
        k == 16 ==> step(12, set![(5int, 5int), (5int, 6int), (6int, 5int), (6int, 6int)]) == set![(5int, 5int), (5int, 6int), (6int, 5int), (6int, 6int)],
{
    if k == 9 {
        assert(step(12, set![(3int, 5int), (4int, 3int), (4int, 5int), (5int, 4int), (5int, 5int), (6int, 6int), (6int, 7int), (7int, 6int), (7int, 8int), (8int, 6int)]) =~= set![(3int, 4int), (4int, 5int), (4int, 6int), (5int, 4int), (5int, 5int), (6int, 6int), (6int, 7int), (7int, 5int), (7int, 6int), (8int, 7int)]);
    } else if k == 10 {
        assert(step(12, set![(3int, 4int), (4int, 5int), (4int, 6int), (5int, 4int), (5int, 5int), (6int, 6int), (6int, 7int), (7int, 5int), (7int, 6int), (8int, 7int)]) =~= set![(3int, 5int), (4int, 6int), (5int, 4int), (5int, 7int), (6int, 4int), (6int, 7int), (7int, 5int), (8int, 6int)]);
    } else if k == 11 {
        assert(step(12, set![(3int, 5int), (4int, 6int), (5int, 4int), (5int, 7int), (6int, 4int), (6int, 7int), (7int, 5int), (8int, 6int)]) =~= set![(4int, 5int), (4int, 6int), (5int, 5int), (5int, 6int), (5int, 7int), (6int, 4int), (6int, 5int), (6int, 6int), (7int, 5int), (7int, 6int)]);
    } else if k == 12 {
        assert(step(12, set![(4int, 5int), (4int, 6int), (5int, 5int), (5int, 6int), (5int, 7int), (6int, 4int), (6int, 5int), (6int, 6int), (7int, 5int), (7int, 6int)]) =~= set![(4int, 5int), (4int, 7int), (5int, 7int), (6int, 4int), (7int, 4int), (7int, 6int)]);
    } else if k == 13 {
        assert(step(12, set![(4int, 5int), (4int, 7int), (5int, 7int), (6int, 4int), (7int, 4int), (7int, 6int)]) =~= set![(4int, 6int), (5int, 6int), (6int, 5int), (7int, 5int)]);
    } else if k == 14 {
        assert(step(12, set![(4int, 6int), (5int, 6int), (6int, 5int), (7int, 5int)]) =~= set![(5int, 5int), (5int, 6int), (6int, 5int), (6int, 6int)]);
    } else if k == 15 {
        assert(step(12, set![(5int, 5int), (5int, 6int), (6int, 5int), (6int, 6int)]) =~= set![(5int, 5int), (5int, 6int), (6int, 5int), (6int, 6int)]);
    } else if k == 16 {
        assert(step(12, set![(5int, 5int), (5int, 6int), (6int, 5int), (6int, 6int)]) =~= set![(5int, 5int), (5int, 6int), (6int, 5int), (6int, 6int)]);
    }
}

/// Where the two gliders of the first collision puzzle are: from the fourteenth step
/// on, a still block.
proof fn lemma_glider_collision_square_phases()
    ensures
        cells_of(seq![pos(2, 1), pos(3, 2), pos(1, 3), pos(2, 3), pos(3, 3), pos(9, 10), pos(8, 9), pos(10, 8), pos(9, 8), pos(8, 8)]) == set![(1int, 3int), (2int, 1int), (2int, 3int), (3int, 2int), (3int, 3int), (8int, 8int), (8int, 9int), (9int, 8int), (9int, 10int), (10int, 8int)],
        generation(12, set![(1int, 3int), (2int, 1int), (2int, 3int), (3int, 2int), (3int, 3int), (8int, 8int), (8int, 9int), (9int, 8int), (9int, 10int), (10int, 8int)], 14) == set![(5int, 5int), (5int, 6int), (6int, 5int), (6int, 6int)],
        generation(12, set![(1int, 3int), (2int, 1int), (2int, 3int), (3int, 2int), (3int, 3int), (8int, 8int), (8int, 9int), (9int, 8int), (9int, 10int), (10int, 8int)], 16) == set![(5int, 5int), (5int, 6int), (6int, 5int), (6int, 6int)],
{
    reveal_with_fuel(cells_of, 11);
    assert(cells_of(seq![pos(2, 1), pos(3, 2), pos(1, 3), pos(2, 3), pos(3, 3), pos(9, 10), pos(8, 9), pos(10, 8), pos(9, 8), pos(8, 8)]) =~= set![(1int, 3int), (2int, 1int), (2int, 3int), (3int, 2int), (3int, 3int), (8int, 8int), (8int, 9int), (9int, 8int), (9int, 10int), (10int, 8int)]);
    lemma_generation_steps(12, set![(1int, 3int), (2int, 1int), (2int, 3int), (3int, 2int), (3int, 3int), (8int, 8int), (8int, 9int), (9int, 8int), (9int, 10int), (10int, 8int)], 0);
    lemma_glider_collision_square_first_steps(1);
    lemma_generation_steps(12, set![(1int, 3int), (2int, 1int), (2int, 3int), (3int, 2int), (3int, 3int), (8int, 8int), (8int, 9int), (9int, 8int), (9int, 10int), (10int, 8int)], 0);
    lemma_glider_collision_square_first_steps(2);
    lemma_generation_steps(12, set![(1int, 3int), (2int, 1int), (2int, 3int), (3int, 2int), (3int, 3int), (8int, 8int), (8int, 9int), (9int, 8int), (9int, 10int), (10int, 8int)], 1);
    lemma_glider_collision_square_first_steps(3);
    lemma_generation_steps(12, set![(1int, 3int), (2int, 1int), (2int, 3int), (3int, 2int), (3int, 3int), (8int, 8int), (8int, 9int), (9int, 8int), (9int, 10int), (10int, 8int)], 2);
    lemma_glider_collision_square_first_steps(4);
    lemma_generation_steps(12, set![(1int, 3int), (2int, 1int), (2int, 3int), (3int, 2int), (3int, 3int), (8int, 8int), (8int, 9int), (9int, 8int), (9int, 10int), (10int, 8int)], 3);
    lemma_glider_collision_square_first_steps(5);
    lemma_generation_steps(12, set![(1int, 3int), (2int, 1int), (2int, 3int), (3int, 2int), (3int, 3int), (8int, 8int), (8int, 9int), (9int, 8int), (9int, 10int), (10int, 8int)], 4);
    lemma_glider_collision_square_first_steps(6);
    lemma_generation_steps(12, set![(1int, 3int), (2int, 1int), (2int, 3int), (3int, 2int), (3int, 3int), (8int, 8int), (8int, 9int), (9int, 8int), (9int, 10int), (10int, 8int)], 5);
    lemma_glider_collision_square_first_steps(7);
    lemma_generation_steps(12, set![(1int, 3int), (2int, 1int), (2int, 3int), (3int, 2int), (3int, 3int), (8int, 8int), (8int, 9int), (9int, 8int), (9int, 10int), (10int, 8int)], 6);
    lemma_glider_collision_square_first_steps(8);
    lemma_generation_steps(12, set![(1int, 3int), (2int, 1int), (2int, 3int), (3int, 2int), (3int, 3int), (8int, 8int), (8int, 9int), (9int, 8int), (9int, 10int), (10int, 8int)], 7);
    lemma_glider_collision_square_second_steps(9);
    lemma_generation_steps(12, set![(1int, 3int), (2int, 1int), (2int, 3int), (3int, 2int), (3int, 3int), (8int, 8int), (8int, 9int), (9int, 8int), (9int, 10int), (10int, 8int)], 8);
    lemma_glider_collision_square_second_steps(10);
    lemma_generation_steps(12, set![(1int, 3int), (2int, 1int), (2int, 3int), (3int, 2int), (3int, 3int), (8int, 8int), (8int, 9int), (9int, 8int), (9int, 10int), (10int, 8int)], 9);
    lemma_glider_collision_square_second_steps(11);
    lemma_generation_steps(12, set![(1int, 3int), (2int, 1int), (2int, 3int), (3int, 2int), (3int, 3int), (8int, 8int), (8int, 9int), (9int, 8int), (9int, 10int), (10int, 8int)], 10);
    lemma_glider_collision_square_second_steps(12);
    lemma_generation_steps(12, set![(1int, 3int), (2int, 1int), (2int, 3int), (3int, 2int), (3int, 3int), (8int, 8int), (8int, 9int), (9int, 8int), (9int, 10int), (10int, 8int)], 11);
    lemma_glider_collision_square_second_steps(13);
    lemma_generation_steps(12, set![(1int, 3int), (2int, 1int), (2int, 3int), (3int, 2int), (3int, 3int), (8int, 8int), (8int, 9int), (9int, 8int), (9int, 10int), (10int, 8int)], 12);
    lemma_glider_collision_square_second_steps(14);
    lemma_generation_steps(12, set![(1int, 3int), (2int, 1int), (2int, 3int), (3int, 2int), (3int, 3int), (8int, 8int), (8int, 9int), (9int, 8int), (9int, 10int), (10int, 8int)], 13);
    lemma_glider_collision_square_second_steps(15);
    lemma_generation_steps(12, set![(1int, 3int), (2int, 1int), (2int, 3int), (3int, 2int), (3int, 3int), (8int, 8int), (8int, 9int), (9int, 8int), (9int, 10int), (10int, 8int)], 14);
    lemma_glider_collision_square_second_steps(16);
    lemma_generation_steps(12, set![(1int, 3int), (2int, 1int), (2int, 3int), (3int, 2int), (3int, 3int), (8int, 8int), (8int, 9int), (9int, 8int), (9int, 10int), (10int, 8int)], 15);
}

/// The gliders of the first collision puzzle meet its hints, and its final conditions
/// after fourteen steps.
pub proof fn lemma_glider_collision_square_solution(p: Puzzle, b: Board)
    requires
        glider_collision_square_puzzle(p, b),
    ensures
        all_hold(p.initial_conditions@, b.live_set()),
        p.solved_at(12, b.live_set(), 14),
{
    lemma_glider_collision_square_phases();
    let f = choose|f: Board|
        f.wf() && f.size == b.size && f.live_set() == generation(b.size as int, b.live_set(), 16)
            && p.final_conditions@ == f.exact_conditions();
    lemma_board_meets_its_exact_conditions(f);
    let low = Range { start: 0u16, end: 5u16 };
    let high = Range { start: 7u16, end: 12u16 };
    assert(b.live_set().filter(|c: (int, int)| in_rect(c, low, low)) =~= set![(1int, 3int), (2int, 1int), (2int, 3int), (3int, 2int), (3int, 3int)]);
    assert(b.live_set().filter(|c: (int, int)| in_rect(c, high, high)) =~= set![(8int, 8int), (8int, 9int), (9int, 8int), (9int, 10int), (10int, 8int)]);
    assert(count_in_rect(b.live_set(), low, low) == 5);
    assert(count_in_rect(b.live_set(), high, high) == 5);
    assert(p.initial_conditions@[0].holds(b.live_set()));
    assert(p.initial_conditions@[1].holds(b.live_set()));
}

/// The gliders of the glider collision cancel, one step at a time: the first eight steps.
#[verifier::spinoff_prover]
proof fn lemma_glider_collision_cancel_first_steps(k: int)
    requires
        1 <= k <= 8,
    ensures
        k == 1 ==> step(12, set![(1int, 3int), (2int, 1int), (2int, 3int), (3int, 2int), (3int, 3int), (7int, 7int), (7int, 8int), (8int, 7int), (8int, 9int), (9int, 7int)]) == set![(1int, 2int), (2int, 3int), (2int, 4int), (3int, 2int), (3int, 3int), (7int, 7int), (7int, 8int), (8int, 6int), (8int, 7int), (9int, 8int)],
        k == 2 ==> step(12, set![(1int, 2int), (2int, 3int), (2int, 4int), (3int, 2int), (3int, 3int), (7int, 7int), (7int, 8int), (8int, 6int), (8int, 7int), (9int, 8int)]) == set![(1int, 3int), (2int, 4int), (3int, 2int), (3int, 3int), (3int, 4int), (7int, 6int), (7int, 7int), (7int, 8int), (8int, 6int), (9int, 7int)],
        k == 3 ==> step(12, set![(1int, 3int), (2int, 4int), (3int, 2int), (3int, 3int), (3int, 4int), (7int, 6int), (7int, 7int), (7int, 8int), (8int, 6int), (9int, 7int)]) == set![(2int, 2int), (2int, 4int), (3int, 3int), (3int, 4int), (4int, 3int), (6int, 7int), (7int, 6int), (7int, 7int), (8int, 6int), (8int, 8int)],
        k == 4 ==> step(12, set![(2int, 2int), (2int, 4int), (3int, 3int), (3int, 4int), (4int, 3int), (6int, 7int), (7int, 6int), (7int, 7int), (8int, 6int), (8int, 8int)]) == set![(2int, 4int), (3int, 2int), (3int, 4int), (4int, 3int), (4int, 4int), (6int, 6int), (6int, 7int), (7int, 6int), (7int, 8int), (8int, 6int)],
        k == 5 ==> step(12, set![(2int, 4int), (3int, 2int), (3int, 4int), (4int, 3int), (4int, 4int), (6int, 6int), (6int, 7int), (7int, 6int), (7int, 8int), (8int, 6int)]) == set![(2int, 3int), (3int, 4int), (3int, 5int), (4int, 3int), (4int, 4int), (6int, 6int), (6int, 7int), (7int, 5int), (7int, 6int), (8int, 7int)],
        k == 6 ==> step(12, set![(2int, 3int), (3int, 4int), (3int, 5int), (4int, 3int), (4int, 4int), (6int, 6int), (6int, 7int), (7int, 5int), (7int, 6int), (8int, 7int)]) == set![(2int, 4int), (3int, 5int), (4int, 3int), (4int, 4int), (4int, 5int), (6int, 5int), (6int, 6int), (6int, 7int), (7int, 5int), (8int, 6int)],
        k == 7 ==> step(12, set![(2int, 4int), (3int, 5int), (4int, 3int), (4int, 4int), (4int, 5int), (6int, 5int), (6int, 6int), (6int, 7int), (7int, 5int), (8int, 6int)]) == set![(3int, 3int), (3int, 5int), (4int, 4int), (4int, 5int), (6int, 5int), (6int, 6int), (7int, 5int), (7int, 7int)],
        k == 8 ==> step(12, set![(3int, 3int), (3int, 5int), (4int, 4int), (4int, 5int), (6int, 5int), (6int, 6int), (7int, 5int), (7int, 7int)]) == set![(3int, 5int), (4int, 4int), (4int, 5int), (5int, 4int), (5int, 6int), (6int, 5int), (6int, 6int), (7int, 5int)],
{
    if k == 1 {
        assert(step(12, set![(1int, 3int), (2int, 1int), (2int, 3int), (3int, 2int), (3int, 3int), (7int, 7int), (7int, 8int), (8int, 7int), (8int, 9int), (9int, 7int)]) =~= set![(1int, 2int), (2int, 3int), (2int, 4int), (3int, 2int), (3int, 3int), (7int, 7int), (7int, 8int), (8int, 6int), (8int, 7int), (9int, 8int)]);
    } else if k == 2 {
        assert(step(12, set![(1int, 2int), (2int, 3int), (2int, 4int), (3int, 2int), (3int, 3int), (7int, 7int), (7int, 8int), (8int, 6int), (8int, 7int), (9int, 8int)]) =~= set![(1int, 3int), (2int, 4int), (3int, 2int), (3int, 3int), (3int, 4int), (7int, 6int), (7int, 7int), (7int, 8int), (8int, 6int), (9int, 7int)]);
    } else if k == 3 {
        assert(step(12, set![(1int, 3int), (2int, 4int), (3int, 2int), (3int, 3int), (3int, 4int), (7int, 6int), (7int, 7int), (7int, 8int), (8int, 6int), (9int, 7int)]) =~= set![(2int, 2int), (2int, 4int), (3int, 3int), (3int, 4int), (4int, 3int), (6int, 7int), (7int, 6int), (7int, 7int), (8int, 6int), (8int, 8int)]);
    } else if k == 4 {
        assert(step(12, set![(2int, 2int), (2int, 4int), (3int, 3int), (3int, 4int), (4int, 3int), (6int, 7int), (7int, 6int), (7int, 7int), (8int, 6int), (8int, 8int)]) =~= set![(2int, 4int), (3int, 2int), (3int, 4int), (4int, 3int), (4int, 4int), (6int, 6int), (6int, 7int), (7int, 6int), (7int, 8int), (8int, 6int)]);
    } else if k == 5 {
        assert(step(12, set![(2int, 4int), (3int, 2int), (3int, 4int), (4int, 3int), (4int, 4int), (6int, 6int), (6int, 7int), (7int, 6int), (7int, 8int), (8int, 6int)]) =~= set![(2int, 3int), (3int, 4int), (3int, 5int), (4int, 3int), (4int, 4int), (6int, 6int), (6int, 7int), (7int, 5int), (7int, 6int), (8int, 7int)]);
    } else if k == 6 {
        assert(step(12, set![(2int, 3int), (3int, 4int), (3int, 5int), (4int, 3int), (4int, 4int), (6int, 6int), (6int, 7int), (7int, 5int), (7int, 6int), (8int, 7int)]) =~= set![(2int, 4int), (3int, 5int), (4int, 3int), (4int, 4int), (4int, 5int), (6int, 5int), (6int, 6int), (6int, 7int), (7int, 5int), (8int, 6int)]);
    } else if k == 7 {
        assert(step(12, set![(2int, 4int), (3int, 5int), (4int, 3int), (4int, 4int), (4int, 5int), (6int, 5int), (6int, 6int), (6int, 7int), (7int, 5int), (8int, 6int)]) =~= set![(3int, 3int), (3int, 5int), (4int, 4int), (4int, 5int), (6int, 5int), (6int, 6int), (7int, 5int), (7int, 7int)]);
    } else if k == 8 {
        assert(step(12, set![(3int, 3int), (3int, 5int), (4int, 4int), (4int, 5int), (6int, 5int), (6int, 6int), (7int, 5int), (7int, 7int)]) =~= set![(3int, 5int), (4int, 4int), (4int, 5int), (5int, 4int), (5int, 6int), (6int, 5int), (6int, 6int), (7int, 5int)]);
    }
}

/// The gliders of the glider collision cancel, one step at a time: the second eight steps.
#[verifier::spinoff_prover]
proof fn lemma_glider_collision_cancel_second_steps(k: int)
    requires
        9 <= k <= 16,
    ensures
        k == 9 ==> step(12, set![(3int, 5int), (4int, 4int), (4int, 5int), (5int, 4int), (5int, 6int), (6int, 5int), (6int, 6int), (7int, 5int)]) == set![(3int, 4int), (3int, 5int), (4int, 4int), (4int, 6int), (5int, 4int), (5int, 6int), (6int, 4int), (6int, 6int), (7int, 5int), (7int, 6int)],
        k == 10 ==> step(12, set![(3int, 4int), (3int, 5int), (4int, 4int), (4int, 6int), (5int, 4int), (5int, 6int), (6int, 4int), (6int, 6int), (7int, 5int), (7int, 6int)]) == set![(3int, 4int), (3int, 5int), (4int, 3int), (4int, 4int), (4int, 6int), (5int, 3int), (5int, 4int), (5int, 6int), (5int, 7int), (6int, 4int), (6int, 6int), (6int, 7int), (7int, 5int), (7int, 6int)],
        k == 11 ==> step(12, set![(3int, 4int), (3int, 5int), (4int, 3int), (4int, 4int), (4int, 6int), (5int, 3int), (5int, 4int), (5int, 6int), (5int, 7int), (6int, 4int), (6int, 6int), (6int, 7int), (7int, 5int), (7int, 6int)]) == set![(3int, 3int), (3int, 4int), (3int, 5int), (4int, 6int), (4int, 7int), (6int, 3int), (6int, 4int), (7int, 5int), (7int, 6int), (7int, 7int)],
        k == 12 ==> step(12, set![(3int, 3int), (3int, 4int), (3int, 5int), (4int, 6int), (4int, 7int), (6int, 3int), (6int, 4int), (7int, 5int), (7int, 6int), (7int, 7int)]) == set![(2int, 4int), (3int, 4int), (3int, 5int), (3int, 6int), (4int, 4int), (4int, 5int), (4int, 6int), (6int, 4int), (6int, 5int), (6int, 6int), (7int, 4int), (7int, 5int), (7int, 6int), (8int, 6int)],
        k == 13 ==> step(12, set![(2int, 4int), (3int, 4int), (3int, 5int), (3int, 6int), (4int, 4int), (4int, 5int), (4int, 6int), (6int, 4int), (6int, 5int), (6int, 6int), (7int, 4int), (7int, 5int), (7int, 6int), (8int, 6int)]) == set![(2int, 4int), (3int, 3int), (3int, 6int), (4int, 4int), (4int, 6int), (6int, 4int), (6int, 6int), (7int, 4int), (7int, 7int), (8int, 6int)],
        k == 14 ==> step(12, set![(2int, 4int), (3int, 3int), (3int, 6int), (4int, 4int), (4int, 6int), (6int, 4int), (6int, 6int), (7int, 4int), (7int, 7int), (8int, 6int)]) == set![(3int, 3int), (3int, 4int), (4int, 5int), (6int, 5int), (7int, 6int), (7int, 7int)],
        k == 15 ==> step(12, set![(3int, 3int), (3int, 4int), (4int, 5int), (6int, 5int), (7int, 6int), (7int, 7int)]) == set![(3int, 4int), (4int, 4int), (6int, 6int), (7int, 6int)],
        k == 16 ==> step(12, set![(3int, 4int), (4int, 4int), (6int, 6int), (7int, 6int)]) == Set::<(int, int)>::empty(),
{
    if k == 9 {
        assert(step(12, set![(3int, 5int), (4int, 4int), (4int, 5int), (5int, 4int), (5int, 6int), (6int, 5int), (6int, 6int), (7int, 5int)]) =~= set![(3int, 4int), (3int, 5int), (4int, 4int), (4int, 6int), (5int, 4int), (5int, 6int), (6int, 4int), (6int, 6int), (7int, 5int), (7int, 6int)]);
    } else if k == 10 {
        assert(step(12, set![(3int, 4int), (3int, 5int), (4int, 4int), (4int, 6int), (5int, 4int), (5int, 6int), (6int, 4int), (6int, 6int), (7int, 5int), (7int, 6int)]) =~= set![(3int, 4int), (3int, 5int), (4int, 3int), (4int, 4int), (4int, 6int), (5int, 3int), (5int, 4int), (5int, 6int), (5int, 7int), (6int, 4int), (6int, 6int), (6int, 7int), (7int, 5int), (7int, 6int)]);
    } else if k == 11 {
        assert(step(12, set![(3int, 4int), (3int, 5int), (4int, 3int), (4int, 4int), (4int, 6int), (5int, 3int), (5int, 4int), (5int, 6int), (5int, 7int), (6int, 4int), (6int, 6int), (6int, 7int), (7int, 5int), (7int, 6int)]) =~= set![(3int, 3int), (3int, 4int), (3int, 5int), (4int, 6int), (4int, 7int), (6int, 3int), (6int, 4int), (7int, 5int), (7int, 6int), (7int, 7int)]);
    } else if k == 12 {
        assert(step(12, set![(3int, 3int), (3int, 4int), (3int, 5int), (4int, 6int), (4int, 7int), (6int, 3int), (6int, 4int), (7int, 5int), (7int, 6int), (7int, 7int)]) =~= set![(2int, 4int), (3int, 4int), (3int, 5int), (3int, 6int), (4int, 4int), (4int, 5int), (4int, 6int), (6int, 4int), (6int, 5int), (6int, 6int), (7int, 4int), (7int, 5int), (7int, 6int), (8int, 6int)]);
    } else if k == 13 {
        assert(step(12, set![(2int, 4int), (3int, 4int), (3int, 5int), (3int, 6int), (4int, 4int), (4int, 5int), (4int, 6int), (6int, 4int), (6int, 5int), (6int, 6int), (7int, 4int), (7int, 5int), (7int, 6int), (8int, 6int)]) =~= set![(2int, 4int), (3int, 3int), (3int, 6int), (4int, 4int), (4int, 6int), (6int, 4int), (6int, 6int), (7int, 4int), (7int, 7int), (8int, 6int)]);
    } else if k == 14 {
        assert(step(12, set![(2int, 4int), (3int, 3int), (3int, 6int), (4int, 4int), (4int, 6int), (6int, 4int), (6int, 6int), (7int, 4int), (7int, 7int), (8int, 6int)]) =~= set![(3int, 3int), (3int, 4int), (4int, 5int), (6int, 5int), (7int, 6int), (7int, 7int)]);
    } else if k == 15 {
        assert(step(12, set![(3int, 3int), (3int, 4int), (4int, 5int), (6int, 5int), (7int, 6int), (7int, 7int)]) =~= set![(3int, 4int), (4int, 4int), (6int, 6int), (7int, 6int)]);
    } else if k == 16 {
        assert(step(12, set![(3int, 4int), (4int, 4int), (6int, 6int), (7int, 6int)]) =~= Set::<(int, int)>::empty());
    }
}

/// Where the two gliders of the second collision puzzle are after sixteen steps: gone.
proof fn lemma_glider_collision_cancel_phases()
    ensures
        cells_of(seq![pos(2, 1), pos(3, 2), pos(1, 3), pos(2, 3), pos(3, 3), pos(8, 9), pos(7, 8), pos(9, 7), pos(8, 7), pos(7, 7)]) == set![(1int, 3int), (2int, 1int), (2int, 3int), (3int, 2int), (3int, 3int), (7int, 7int), (7int, 8int), (8int, 7int), (8int, 9int), (9int, 7int)],
        generation(12, set![(1int, 3int), (2int, 1int), (2int, 3int), (3int, 2int), (3int, 3int), (7int, 7int), (7int, 8int), (8int, 7int), (8int, 9int), (9int, 7int)], 16) == Set::<(int, int)>::empty(),
{
    reveal_with_fuel(cells_of, 11);
    assert(cells_of(seq![pos(2, 1), pos(3, 2), pos(1, 3), pos(2, 3), pos(3, 3), pos(8, 9), pos(7, 8), pos(9, 7), pos(8, 7), pos(7, 7)]) =~= set![(1int, 3int), (2int, 1int), (2int, 3int), (3int, 2int), (3int, 3int), (7int, 7int), (7int, 8int), (8int, 7int), (8int, 9int), (9int, 7int)]);
    lemma_generation_steps(12, set![(1int, 3int), (2int, 1int), (2int, 3int), (3int, 2int), (3int, 3int), (7int, 7int), (7int, 8int), (8int, 7int), (8int, 9int), (9int, 7int)], 0);
    lemma_glider_collision_cancel_first_steps(1);
    lemma_generation_steps(12, set![(1int, 3int), (2int, 1int), (2int, 3int), (3int, 2int), (3int, 3int), (7int, 7int), (7int, 8int), (8int, 7int), (8int, 9int), (9int, 7int)], 0);
    lemma_glider_collision_cancel_first_steps(2);
    lemma_generation_steps(12, set![(1int, 3int), (2int, 1int), (2int, 3int), (3int, 2int), (3int, 3int), (7int, 7int), (7int, 8int), (8int, 7int), (8int, 9int), (9int, 7int)], 1);
    lemma_glider_collision_cancel_first_steps(3);
    lemma_generation_steps(12, set![(1int, 3int), (2int, 1int), (2int, 3int), (3int, 2int), (3int, 3int), (7int, 7int), (7int, 8int), (8int, 7int), (8int, 9int), (9int, 7int)], 2);
    lemma_glider_collision_cancel_first_steps(4);
    lemma_generation_steps(12, set![(1int, 3int), (2int, 1int), (2int, 3int), (3int, 2int), (3int, 3int), (7int, 7int), (7int, 8int), (8int, 7int), (8int, 9int), (9int, 7int)], 3);
    lemma_glider_collision_cancel_first_steps(5);
    lemma_generation_steps(12, set![(1int, 3int), (2int, 1int), (2int, 3int), (3int, 2int), (3int, 3int), (7int, 7int), (7int, 8int), (8int, 7int), (8int, 9int), (9int, 7int)], 4);
    lemma_glider_collision_cancel_first_steps(6);
    lemma_generation_steps(12, set![(1int, 3int), (2int, 1int), (2int, 3int), (3int, 2int), (3int, 3int), (7int, 7int), (7int, 8int), (8int, 7int), (8int, 9int), (9int, 7int)], 5);
    lemma_glider_collision_cancel_first_steps(7);
    lemma_generation_steps(12, set![(1int, 3int), (2int, 1int), (2int, 3int), (3int, 2int), (3int, 3int), (7int, 7int), (7int, 8int), (8int, 7int), (8int, 9int), (9int, 7int)], 6);
    lemma_glider_collision_cancel_first_steps(8);
    lemma_generation_steps(12, set![(1int, 3int), (2int, 1int), (2int, 3int), (3int, 2int), (3int, 3int), (7int, 7int), (7int, 8int), (8int, 7int), (8int, 9int), (9int, 7int)], 7);
    lemma_glider_collision_cancel_second_steps(9);
    lemma_generation_steps(12, set![(1int, 3int), (2int, 1int), (2int, 3int), (3int, 2int), (3int, 3int), (7int, 7int), (7int, 8int), (8int, 7int), (8int, 9int), (9int, 7int)], 8);
    lemma_glider_collision_cancel_second_steps(10);
    lemma_generation_steps(12, set![(1int, 3int), (2int, 1int), (2int, 3int), (3int, 2int), (3int, 3int), (7int, 7int), (7int, 8int), (8int, 7int), (8int, 9int), (9int, 7int)], 9);
    lemma_glider_collision_cancel_second_steps(11);
    lemma_generation_steps(12, set![(1int, 3int), (2int, 1int), (2int, 3int), (3int, 2int), (3int, 3int), (7int, 7int), (7int, 8int), (8int, 7int), (8int, 9int), (9int, 7int)], 10);
    lemma_glider_collision_cancel_second_steps(12);
    lemma_generation_steps(12, set![(1int, 3int), (2int, 1int), (2int, 3int), (3int, 2int), (3int, 3int), (7int, 7int), (7int, 8int), (8int, 7int), (8int, 9int), (9int, 7int)], 11);
    lemma_glider_collision_cancel_second_steps(13);
    lemma_generation_steps(12, set![(1int, 3int), (2int, 1int), (2int, 3int), (3int, 2int), (3int, 3int), (7int, 7int), (7int, 8int), (8int, 7int), (8int, 9int), (9int, 7int)], 12);
    lemma_glider_collision_cancel_second_steps(14);
    lemma_generation_steps(12, set![(1int, 3int), (2int, 1int), (2int, 3int), (3int, 2int), (3int, 3int), (7int, 7int), (7int, 8int), (8int, 7int), (8int, 9int), (9int, 7int)], 13);
    lemma_glider_collision_cancel_second_steps(15);
    lemma_generation_steps(12, set![(1int, 3int), (2int, 1int), (2int, 3int), (3int, 2int), (3int, 3int), (7int, 7int), (7int, 8int), (8int, 7int), (8int, 9int), (9int, 7int)], 14);
    lemma_glider_collision_cancel_second_steps(16);
    lemma_generation_steps(12, set![(1int, 3int), (2int, 1int), (2int, 3int), (3int, 2int), (3int, 3int), (7int, 7int), (7int, 8int), (8int, 7int), (8int, 9int), (9int, 7int)], 15);
    assert(Set::<(int, int)>::empty() =~= Set::<(int, int)>::empty());
}

/// The gliders of the second collision puzzle meet its hints, and its final conditions
/// after sixteen steps.
pub proof fn lemma_glider_collision_cancel_solution(p: Puzzle, b: Board)
    requires
        glider_collision_cancel_puzzle(p, b),
    ensures
        all_hold(p.initial_conditions@, b.live_set()),
        p.solved_at(12, b.live_set(), 16),
{
    lemma_glider_collision_cancel_phases();
    let f = choose|f: Board|
        f.wf() && f.size == b.size && f.live_set() == generation(b.size as int, b.live_set(), 16)
            && p.final_conditions@ == f.exact_conditions();
    lemma_board_meets_its_exact_conditions(f);
    let low = Range { start: 0u16, end: 5u16 };
    let high = Range { start: 7u16, end: 12u16 };
    assert(b.live_set().filter(|c: (int, int)| in_rect(c, low, low)) =~= set![(1int, 3int), (2int, 1int), (2int, 3int), (3int, 2int), (3int, 3int)]);
    assert(b.live_set().filter(|c: (int, int)| in_rect(c, high, high)) =~= set![(7int, 7int), (7int, 8int), (8int, 7int), (8int, 9int), (9int, 7int)]);
    assert(count_in_rect(b.live_set(), low, low) == 5);
    assert(count_in_rect(b.live_set(), high, high) == 5);
    assert(p.initial_conditions@[0].holds(b.live_set()));
    assert(p.initial_conditions@[1].holds(b.live_set()));
}

/// The board of the first four blinkers puzzle meets its hints, and its final conditions after ten steps.
pub proof fn lemma_four_blinkers_solution(p: Puzzle, b: Board)
    requires
        four_blinkers_puzzle(p, b),
    ensures
        all_hold(p.initial_conditions@, b.live_set()),
        p.solved_at(16, b.live_set(), 10),
{
    lemma_board_meets_its_exact_conditions(b);
    assert forall|i: int| 0 <= i < p.initial_conditions@.len() implies #[trigger] p.initial_conditions@[i].holds(
        b.live_set(),
    ) by {
        assert(p.initial_conditions@.contains(p.initial_conditions@[i]));
    }
    let f = choose|f: Board|
        f.wf() && f.size == b.size && f.live_set() == generation(b.size as int, b.live_set(), 10)
            && p.final_conditions@ == f.exact_conditions();
    lemma_board_meets_its_exact_conditions(f);
}

/// The board of the second four blinkers puzzle meets its hints, and its final conditions after ten steps.
pub proof fn lemma_four_blinkers_with_initial_conditions_solution(p: Puzzle, b: Board)
    requires
        four_blinkers_with_initial_conditions_puzzle(p, b),
    ensures
        all_hold(p.initial_conditions@, b.live_set()),
        p.solved_at(16, b.live_set(), 10),
{
    lemma_board_meets_its_exact_conditions(b);
    assert forall|i: int| 0 <= i < p.initial_conditions@.len() implies #[trigger] p.initial_conditions@[i].holds(
        b.live_set(),
    ) by {
        assert(p.initial_conditions@.contains(p.initial_conditions@[i]));
    }
    let f = choose|f: Board|
        f.wf() && f.size == b.size && f.live_set() == generation(b.size as int, b.live_set(), 10)
            && p.final_conditions@ == f.exact_conditions();
    lemma_board_meets_its_exact_conditions(f);
}

/// The board of the robot face puzzle meets its hints.
pub proof fn lemma_robot_face_solution(p: Puzzle, b: Board)
    requires
        robot_face_puzzle(p, b),
    ensures
        all_hold(p.initial_conditions@, b.live_set()),
{
    lemma_board_meets_its_exact_conditions(b);
    assert forall|i: int| 0 <= i < p.initial_conditions@.len() implies #[trigger] p.initial_conditions@[i].holds(
        b.live_set(),
    ) by {
        assert(p.initial_conditions@.contains(p.initial_conditions@[i]));
    }
}

/// The glider of the migration puzzle meets its hints, and its final conditions after forty steps.
pub proof fn lemma_glider_migration_solution(p: Puzzle, b: Board)
    requires
        glider_migration_puzzle(p, b),
    ensures
        all_hold(p.initial_conditions@, b.live_set()),
        p.solved_at(16, b.live_set(), 40),
{
    reveal_with_fuel(cells_of, 6);
    assert(b.live_set() =~= set![(1int, 3int), (2int, 1int), (2int, 3int), (3int, 2int), (3int, 3int)]);
    assert(b.live_set().filter(|c: (int, int)| in_rect(c, Range { start: 0u16, end: 8u16 }, Range { start: 0u16, end: 8u16 })) =~= set![(1int, 3int), (2int, 1int), (2int, 3int), (3int, 2int), (3int, 3int)]);
    assert(count_in_rect(b.live_set(), Range { start: 0u16, end: 8u16 }, Range { start: 0u16, end: 8u16 }) == 5);
    assert(b.live_set().filter(|c: (int, int)| in_rect(c, Range { start: 8u16, end: 16u16 }, Range { start: 0u16, end: 8u16 })) =~= Set::<(int, int)>::empty());
    assert(count_in_rect(b.live_set(), Range { start: 8u16, end: 16u16 }, Range { start: 0u16, end: 8u16 }) == 0);
    assert(b.live_set().filter(|c: (int, int)| in_rect(c, Range { start: 0u16, end: 16u16 }, Range { start: 8u16, end: 16u16 })) =~= Set::<(int, int)>::empty());
    assert(count_in_rect(b.live_set(), Range { start: 0u16, end: 16u16 }, Range { start: 8u16, end: 16u16 }) == 0);
    assert forall|i: int| 0 <= i < p.initial_conditions@.len() implies #[trigger] p.initial_conditions@[i].holds(
        b.live_set(),
    ) by {
        if i == 0 {
        } else if i == 1 {
        } else if i == 2 {
        } else if i == 3 {
        }
    }
    let f = choose|f: Board|
        f.wf() && f.size == b.size && f.live_set() == generation(b.size as int, b.live_set(), 40)
            && p.final_conditions@ == f.exact_conditions();
    lemma_board_meets_its_exact_conditions(f);
}

/// The board of the second reflector puzzle meets its hints, and its final conditions after thirty steps.
#[verifier::rlimit(80)]
pub proof fn lemma_glider_reflector_2_solution(p: Puzzle, b: Board)
    requires
        glider_reflector_2_puzzle(p, b),
    ensures
        all_hold(p.initial_conditions@, b.live_set()),
        p.solved_at(24, b.live_set(), 30),
{
    reveal_with_fuel(cells_of, 18);
    assert(b.live_set() =~= set![(2int, 10int), (2int, 12int), (3int, 10int), (3int, 11int), (4int, 11int), (11int, 10int), (12int, 10int), (13int, 9int), (13int, 11int), (14int, 10int), (15int, 10int), (16int, 10int), (17int, 10int), (18int, 9int), (18int, 11int), (19int, 10int), (20int, 10int)]);
    assert(b.live_set().filter(|c: (int, int)| in_rect(c, Range { start: 1u16, end: 5u16 }, Range { start: 10u16, end: 14u16 })) =~= set![(2int, 10int), (2int, 12int), (3int, 10int), (3int, 11int), (4int, 11int)]);
    assert(count_in_rect(b.live_set(), Range { start: 1u16, end: 5u16 }, Range { start: 10u16, end: 14u16 }) == 5);
    assert(b.live_set().filter(|c: (int, int)| in_rect(c, Range { start: 0u16, end: 24u16 }, Range { start: 0u16, end: 24u16 })) =~= set![(2int, 10int), (2int, 12int), (3int, 10int), (3int, 11int), (4int, 11int), (11int, 10int), (12int, 10int), (13int, 9int), (13int, 11int), (14int, 10int), (15int, 10int), (16int, 10int), (17int, 10int), (18int, 9int), (18int, 11int), (19int, 10int), (20int, 10int)]);
    assert(count_in_rect(b.live_set(), Range { start: 0u16, end: 24u16 }, Range { start: 0u16, end: 24u16 }) == 17);
    let h = choose|h: Board|
        h.wf() && h.size == 24 && h.live_set() == cells_of(seq![pos(11, 10), pos(12, 10), pos(13, 9), pos(13, 11), pos(14, 10), pos(15, 10), pos(16, 10), pos(17, 10), pos(18, 9), pos(18, 11), pos(19, 10), pos(20, 10)])
            && p.initial_conditions@ == h.exact_conditions().drop_last().push(
            rect(1, 5, 10, 14, 5, 5),
        ).push(rect(0, 24, 0, 24, 17, 17));
    lemma_cells_of_len(h.live_cells@);
    assert(cells_of(seq![pos(11, 10), pos(12, 10), pos(13, 9), pos(13, 11), pos(14, 10), pos(15, 10), pos(16, 10), pos(17, 10), pos(18, 9), pos(18, 11), pos(19, 10), pos(20, 10)]) =~= set![(11int, 10int), (12int, 10int), (13int, 9int), (13int, 11int), (14int, 10int), (15int, 10int), (16int, 10int), (17int, 10int), (18int, 9int), (18int, 11int), (19int, 10int), (20int, 10int)]);
    assert(set![(11int, 10int), (12int, 10int), (13int, 9int), (13int, 11int), (14int, 10int), (15int, 10int), (16int, 10int), (17int, 10int), (18int, 9int), (18int, 11int), (19int, 10int), (20int, 10int)].len() == 12);
    assert forall|i: int| 0 <= i < p.initial_conditions@.len() implies #[trigger] p.initial_conditions@[i].holds(
        b.live_set(),
    ) by {
        if i < 12 {
            lemma_cells_of_index(h.live_cells@, i);
        }
    }
    let f = choose|f: Board|
        f.wf() && f.size == b.size && f.live_set() == generation(b.size as int, b.live_set(), 30)
            && p.final_conditions@ == f.exact_conditions();
    lemma_board_meets_its_exact_conditions(f);
}

/// The board of the eater puzzle meets its hints, and its final conditions after
/// twenty-six steps.
#[verifier::spinoff_prover]
#[verifier::rlimit(80)]
pub proof fn lemma_eater_solution(p: Puzzle, b: Board)
    requires
        eater_puzzle(p, b),
    ensures
        all_hold(p.initial_conditions@, b.live_set()),
        p.solved_at(16, b.live_set(), 26),
{
    reveal_with_fuel(cells_of, 13);
    assert(b.live_set() =~= set![(1int, 3int), (2int, 1int), (2int, 3int), (3int, 2int), (3int, 3int), (10int, 10int), (10int, 11int), (11int, 10int), (12int, 11int), (12int, 12int), (12int, 13int), (13int, 13int)]);
    assert(b.live_set().filter(|c: (int, int)| in_rect(c, Range { start: 0u16, end: 6u16 }, Range { start: 0u16, end: 6u16 })) =~= set![(1int, 3int), (2int, 1int), (2int, 3int), (3int, 2int), (3int, 3int)]);
    assert(count_in_rect(b.live_set(), Range { start: 0u16, end: 6u16 }, Range { start: 0u16, end: 6u16 }) == 5);
    assert(b.live_set().filter(|c: (int, int)| in_rect(c, Range { start: 0u16, end: 16u16 }, Range { start: 0u16, end: 16u16 })) =~= set![(1int, 3int), (2int, 1int), (2int, 3int), (3int, 2int), (3int, 3int), (10int, 10int), (10int, 11int), (11int, 10int), (12int, 11int), (12int, 12int), (12int, 13int), (13int, 13int)]);
    assert(count_in_rect(b.live_set(), Range { start: 0u16, end: 16u16 }, Range { start: 0u16, end: 16u16 }) == 12);
    lemma_eater_phases();
    let f = choose|f: Board|
        f.wf() && f.size == 16 && f.live_set() == cells_of(seq![pos(10, 10), pos(11, 10), pos(10, 11), pos(12, 11), pos(12, 12), pos(12, 13), pos(13, 13)])
            && p.final_conditions@ == f.exact_conditions();
    lemma_board_meets_its_exact_conditions(f);
    lemma_cells_of_len(f.live_cells@);
    assert(cells_of(seq![pos(10, 10), pos(11, 10), pos(10, 11), pos(12, 11), pos(12, 12), pos(12, 13), pos(13, 13)]) =~= set![(10int, 10int), (10int, 11int), (11int, 10int), (12int, 11int), (12int, 12int), (12int, 13int), (13int, 13int)]);
    assert(set![(10int, 10int), (10int, 11int), (11int, 10int), (12int, 11int), (12int, 12int), (12int, 13int), (13int, 13int)].len() == 7);
    assert forall|i: int| 0 <= i < p.initial_conditions@.len() implies #[trigger] p.initial_conditions@[i].holds(
        b.live_set(),
    ) by {
        if i < 7 {
            lemma_cells_of_index(f.live_cells@, i);
        }
    }
}

/// The cells of the double reflector board, and the glider among them.
#[verifier::rlimit(50)]
proof fn lemma_glider_double_reflector_cells()
    ensures
        cells_of(seq![ pos(19, 10), pos(20, 10), pos(20, 11), pos(21, 11), pos(19, 12), pos(28, 10), pos(29, 10), pos(30, 9), pos(30, 11), pos(31, 10), pos(32, 10), pos(33, 10), pos(34, 10), pos(35, 9), pos(35, 11), pos(36, 10), pos(37, 10), pos(3, 14), pos(4, 14), pos(5, 13), pos(5, 15), pos(6, 14), pos(7, 14), pos(8, 14), pos(9, 14), pos(10, 13), pos(10, 15), pos(11, 14), pos(12, 14) ]) == set![(3int, 14int), (4int, 14int), (5int, 13int), (5int, 15int), (6int, 14int), (7int, 14int), (8int, 14int), (9int, 14int), (10int, 13int), (10int, 15int), (11int, 14int), (12int, 14int), (19int, 10int), (19int, 12int), (20int, 10int), (20int, 11int), (21int, 11int), (28int, 10int), (29int, 10int), (30int, 9int), (30int, 11int), (31int, 10int), (32int, 10int), (33int, 10int), (34int, 10int), (35int, 9int), (35int, 11int), (36int, 10int), (37int, 10int)],
        count_in_rect(set![(3int, 14int), (4int, 14int), (5int, 13int), (5int, 15int), (6int, 14int), (7int, 14int), (8int, 14int), (9int, 14int), (10int, 13int), (10int, 15int), (11int, 14int), (12int, 14int), (19int, 10int), (19int, 12int), (20int, 10int), (20int, 11int), (21int, 11int), (28int, 10int), (29int, 10int), (30int, 9int), (30int, 11int), (31int, 10int), (32int, 10int), (33int, 10int), (34int, 10int), (35int, 9int), (35int, 11int), (36int, 10int), (37int, 10int)], Range { start: 19u16, end: 22u16 }, Range { start: 10u16, end: 13u16 }) == 5,
{
    reveal_with_fuel(cells_of, 30);
    assert(cells_of(seq![ pos(19, 10), pos(20, 10), pos(20, 11), pos(21, 11), pos(19, 12), pos(28, 10), pos(29, 10), pos(30, 9), pos(30, 11), pos(31, 10), pos(32, 10), pos(33, 10), pos(34, 10), pos(35, 9), pos(35, 11), pos(36, 10), pos(37, 10), pos(3, 14), pos(4, 14), pos(5, 13), pos(5, 15), pos(6, 14), pos(7, 14), pos(8, 14), pos(9, 14), pos(10, 13), pos(10, 15), pos(11, 14), pos(12, 14) ]) =~= set![(3int, 14int), (4int, 14int), (5int, 13int), (5int, 15int), (6int, 14int), (7int, 14int), (8int, 14int), (9int, 14int), (10int, 13int), (10int, 15int), (11int, 14int), (12int, 14int), (19int, 10int), (19int, 12int), (20int, 10int), (20int, 11int), (21int, 11int), (28int, 10int), (29int, 10int), (30int, 9int), (30int, 11int), (31int, 10int), (32int, 10int), (33int, 10int), (34int, 10int), (35int, 9int), (35int, 11int), (36int, 10int), (37int, 10int)]);
    assert(set![(3int, 14int), (4int, 14int), (5int, 13int), (5int, 15int), (6int, 14int), (7int, 14int), (8int, 14int), (9int, 14int), (10int, 13int), (10int, 15int), (11int, 14int), (12int, 14int), (19int, 10int), (19int, 12int), (20int, 10int), (20int, 11int), (21int, 11int), (28int, 10int), (29int, 10int), (30int, 9int), (30int, 11int), (31int, 10int), (32int, 10int), (33int, 10int), (34int, 10int), (35int, 9int), (35int, 11int), (36int, 10int), (37int, 10int)].filter(|c: (int, int)| in_rect(c, Range { start: 19u16, end: 22u16 }, Range { start: 10u16, end: 13u16 })) =~= set![(19int, 10int), (19int, 12int), (20int, 10int), (20int, 11int), (21int, 11int)]);
}

/// The board of the double reflector puzzle meets its hints.
pub proof fn lemma_glider_double_reflector_solution(p: Puzzle, b: Board)
    requires
        glider_double_reflector_puzzle(p, b),
    ensures
        all_hold(p.initial_conditions@, b.live_set()),
{
    lemma_glider_double_reflector_cells();
    lemma_board_meets_its_exact_conditions(b);
    assert forall|i: int| 0 <= i < p.initial_conditions@.len() implies #[trigger] p.initial_conditions@[i].holds(
        b.live_set(),
    ) by {
        if 2 <= i < 14 {
            assert(p.initial_conditions@[i] == b.exact_conditions()[i - 2]);
        } else if i >= 14 {
            assert(p.initial_conditions@[i] == b.exact_conditions()[i + 3]);
        }
    }
}


/// The reflector board after its first step.
#[verifier::spinoff_prover]
#[verifier::rlimit(100)]
proof fn lemma_glider_reflector_1_board()
    ensures
        generation(24, cells_of(seq![pos(2, 10), pos(3, 10), pos(3, 11), pos(4, 11), pos(2, 12), pos(11, 10), pos(12, 10), pos(13, 9), pos(13, 11), pos(14, 10), pos(15, 10), pos(16, 10), pos(17, 10), pos(18, 9), pos(18, 11), pos(19, 10), pos(20, 10)]), 1) == set![(2int, 10int), (3int, 10int), (3int, 12int), (4int, 10int), (4int, 11int), (12int, 9int), (12int, 10int), (12int, 11int), (13int, 9int), (13int, 11int), (14int, 9int), (14int, 10int), (14int, 11int), (15int, 9int), (15int, 10int), (15int, 11int), (16int, 9int), (16int, 10int), (16int, 11int), (17int, 9int), (17int, 10int), (17int, 11int), (18int, 9int), (18int, 11int), (19int, 9int), (19int, 10int), (19int, 11int)],
{
    reveal_with_fuel(cells_of, 18);
    reveal_with_fuel(generation, 2);
    assert(cells_of(seq![pos(2, 10), pos(3, 10), pos(3, 11), pos(4, 11), pos(2, 12), pos(11, 10), pos(12, 10), pos(13, 9), pos(13, 11), pos(14, 10), pos(15, 10), pos(16, 10), pos(17, 10), pos(18, 9), pos(18, 11), pos(19, 10), pos(20, 10)]) =~= set![(2int, 10int), (2int, 12int), (3int, 10int), (3int, 11int), (4int, 11int), (11int, 10int), (12int, 10int), (13int, 9int), (13int, 11int), (14int, 10int), (15int, 10int), (16int, 10int), (17int, 10int), (18int, 9int), (18int, 11int), (19int, 10int), (20int, 10int)]);
    assert(step(24, set![(2int, 10int), (2int, 12int), (3int, 10int), (3int, 11int), (4int, 11int), (11int, 10int), (12int, 10int), (13int, 9int), (13int, 11int), (14int, 10int), (15int, 10int), (16int, 10int), (17int, 10int), (18int, 9int), (18int, 11int), (19int, 10int), (20int, 10int)]) =~= set![(2int, 10int), (3int, 10int), (3int, 12int), (4int, 10int), (4int, 11int), (12int, 9int), (12int, 10int), (12int, 11int), (13int, 9int), (13int, 11int), (14int, 9int), (14int, 10int), (14int, 11int), (15int, 9int), (15int, 10int), (15int, 11int), (16int, 9int), (16int, 10int), (16int, 11int), (17int, 9int), (17int, 10int), (17int, 11int), (18int, 9int), (18int, 11int), (19int, 9int), (19int, 10int), (19int, 11int)]);
}

/// The pentadecathlon alone after its first step.
#[verifier::rlimit(50)]
proof fn lemma_glider_reflector_1_hints()
    ensures
        generation(24, cells_of(seq![pos(11, 10), pos(12, 10), pos(13, 9), pos(13, 11), pos(14, 10), pos(15, 10), pos(16, 10), pos(17, 10), pos(18, 9), pos(18, 11), pos(19, 10), pos(20, 10)]), 1) == set![(12int, 9int), (12int, 10int), (12int, 11int), (13int, 9int), (13int, 11int), (14int, 9int), (14int, 10int), (14int, 11int), (15int, 9int), (15int, 10int), (15int, 11int), (16int, 9int), (16int, 10int), (16int, 11int), (17int, 9int), (17int, 10int), (17int, 11int), (18int, 9int), (18int, 11int), (19int, 9int), (19int, 10int), (19int, 11int)],
        set![(12int, 9int), (12int, 10int), (12int, 11int), (13int, 9int), (13int, 11int), (14int, 9int), (14int, 10int), (14int, 11int), (15int, 9int), (15int, 10int), (15int, 11int), (16int, 9int), (16int, 10int), (16int, 11int), (17int, 9int), (17int, 10int), (17int, 11int), (18int, 9int), (18int, 11int), (19int, 9int), (19int, 10int), (19int, 11int)].len() == 22,
{
    reveal_with_fuel(cells_of, 13);
    reveal_with_fuel(generation, 2);
    assert(cells_of(seq![pos(11, 10), pos(12, 10), pos(13, 9), pos(13, 11), pos(14, 10), pos(15, 10), pos(16, 10), pos(17, 10), pos(18, 9), pos(18, 11), pos(19, 10), pos(20, 10)]) =~= set![(11int, 10int), (12int, 10int), (13int, 9int), (13int, 11int), (14int, 10int), (15int, 10int), (16int, 10int), (17int, 10int), (18int, 9int), (18int, 11int), (19int, 10int), (20int, 10int)]);
    assert(step(24, set![(11int, 10int), (12int, 10int), (13int, 9int), (13int, 11int), (14int, 10int), (15int, 10int), (16int, 10int), (17int, 10int), (18int, 9int), (18int, 11int), (19int, 10int), (20int, 10int)]) =~= set![(12int, 9int), (12int, 10int), (12int, 11int), (13int, 9int), (13int, 11int), (14int, 9int), (14int, 10int), (14int, 11int), (15int, 9int), (15int, 10int), (15int, 11int), (16int, 9int), (16int, 10int), (16int, 11int), (17int, 9int), (17int, 10int), (17int, 11int), (18int, 9int), (18int, 11int), (19int, 9int), (19int, 10int), (19int, 11int)]);
}

/// The board of the first reflector puzzle meets its hints, and its final conditions
/// after thirty steps.
pub proof fn lemma_glider_reflector_1_solution(p: Puzzle, b: Board)
    requires
        glider_reflector_1_puzzle(p, b),
    ensures
        all_hold(p.initial_conditions@, b.live_set()),
        p.solved_at(24, b.live_set(), 30),
{
    lemma_glider_reflector_1_board();
    lemma_glider_reflector_1_hints();
    let h = choose|h: Board|
        h.wf() && h.size == 24 && h.live_set() == generation(
            24,
            cells_of(seq![pos(11, 10), pos(12, 10), pos(13, 9), pos(13, 11), pos(14, 10), pos(15, 10), pos(16, 10), pos(17, 10), pos(18, 9), pos(18, 11), pos(19, 10), pos(20, 10)]),
            1,
        ) && p.initial_conditions@ == h.exact_conditions().drop_last().push(
            rect(1, 5, 10, 14, 5, 5),
        ).push(rect(0, 24, 0, 24, 27, 27));
    lemma_cells_of_len(h.live_cells@);
    lemma_cells_of_len(b.live_cells@);
    lemma_cells_of_in_grid(b.live_cells@, 24);
    lemma_count_whole_grid(24, b.live_set());
    assert(set![(12int, 9int), (12int, 10int), (12int, 11int), (13int, 9int), (13int, 11int), (14int, 9int), (14int, 10int), (14int, 11int), (15int, 9int), (15int, 10int), (15int, 11int), (16int, 9int), (16int, 10int), (16int, 11int), (17int, 9int), (17int, 10int), (17int, 11int), (18int, 9int), (18int, 11int), (19int, 9int), (19int, 10int), (19int, 11int)].subset_of(set![(2int, 10int), (3int, 10int), (3int, 12int), (4int, 10int), (4int, 11int), (12int, 9int), (12int, 10int), (12int, 11int), (13int, 9int), (13int, 11int), (14int, 9int), (14int, 10int), (14int, 11int), (15int, 9int), (15int, 10int), (15int, 11int), (16int, 9int), (16int, 10int), (16int, 11int), (17int, 9int), (17int, 10int), (17int, 11int), (18int, 9int), (18int, 11int), (19int, 9int), (19int, 10int), (19int, 11int)]));
    assert(b.live_set().filter(|c: (int, int)| in_rect(c, Range { start: 1u16, end: 5u16 }, Range { start: 10u16, end: 14u16 })) =~= set![(2int, 10int), (3int, 10int), (3int, 12int), (4int, 10int), (4int, 11int)]);
    assert(set![(2int, 10int), (3int, 10int), (3int, 12int), (4int, 10int), (4int, 11int), (12int, 9int), (12int, 10int), (12int, 11int), (13int, 9int), (13int, 11int), (14int, 9int), (14int, 10int), (14int, 11int), (15int, 9int), (15int, 10int), (15int, 11int), (16int, 9int), (16int, 10int), (16int, 11int), (17int, 9int), (17int, 10int), (17int, 11int), (18int, 9int), (18int, 11int), (19int, 9int), (19int, 10int), (19int, 11int)].len() == 27);
    assert forall|i: int| 0 <= i < p.initial_conditions@.len() implies #[trigger] p.initial_conditions@[i].holds(
        b.live_set(),
    ) by {
        if i < 22 {
            lemma_cells_of_index(h.live_cells@, i);
        }
    }
    let f = choose|f: Board|
        f.wf() && f.size == b.size && f.live_set() == generation(b.size as int, b.live_set(), 30)
            && p.final_conditions@ == f.exact_conditions();
    lemma_board_meets_its_exact_conditions(f);
}

/// The glider and the eater, one step at a time: the opening steps.
#[verifier::spinoff_prover]
proof fn lemma_eater_opening_step(k: int)
    requires
        1 <= k <= 9,
    ensures
        k == 1 ==> step(16, set![(1int, 3int), (2int, 1int), (2int, 3int), (3int, 2int), (3int, 3int), (10int, 10int), (10int, 11int), (11int, 10int), (12int, 11int), (12int, 12int), (12int, 13int), (13int, 13int)]) == set![(1int, 2int), (2int, 3int), (2int, 4int), (3int, 2int), (3int, 3int), (10int, 10int), (10int, 11int), (11int, 10int), (12int, 11int), (12int, 12int), (12int, 13int), (13int, 13int)],
        k == 2 ==> step(16, set![(1int, 2int), (2int, 3int), (2int, 4int), (3int, 2int), (3int, 3int), (10int, 10int), (10int, 11int), (11int, 10int), (12int, 11int), (12int, 12int), (12int, 13int), (13int, 13int)]) == set![(1int, 3int), (2int, 4int), (3int, 2int), (3int, 3int), (3int, 4int), (10int, 10int), (10int, 11int), (11int, 10int), (12int, 11int), (12int, 12int), (12int, 13int), (13int, 13int)],
        k == 3 ==> step(16, set![(1int, 3int), (2int, 4int), (3int, 2int), (3int, 3int), (3int, 4int), (10int, 10int), (10int, 11int), (11int, 10int), (12int, 11int), (12int, 12int), (12int, 13int), (13int, 13int)]) == set![(2int, 2int), (2int, 4int), (3int, 3int), (3int, 4int), (4int, 3int), (10int, 10int), (10int, 11int), (11int, 10int), (12int, 11int), (12int, 12int), (12int, 13int), (13int, 13int)],
        k == 4 ==> step(16, set![(2int, 2int), (2int, 4int), (3int, 3int), (3int, 4int), (4int, 3int), (10int, 10int), (10int, 11int), (11int, 10int), (12int, 11int), (12int, 12int), (12int, 13int), (13int, 13int)]) == set![(2int, 4int), (3int, 2int), (3int, 4int), (4int, 3int), (4int, 4int), (10int, 10int), (10int, 11int), (11int, 10int), (12int, 11int), (12int, 12int), (12int, 13int), (13int, 13int)],
        k == 5 ==> step(16, set![(2int, 4int), (3int, 2int), (3int, 4int), (4int, 3int), (4int, 4int), (10int, 10int), (10int, 11int), (11int, 10int), (12int, 11int), (12int, 12int), (12int, 13int), (13int, 13int)]) == set![(2int, 3int), (3int, 4int), (3int, 5int), (4int, 3int), (4int, 4int), (10int, 10int), (10int, 11int), (11int, 10int), (12int, 11int), (12int, 12int), (12int, 13int), (13int, 13int)],
        k == 6 ==> step(16, set![(2int, 3int), (3int, 4int), (3int, 5int), (4int, 3int), (4int, 4int), (10int, 10int), (10int, 11int), (11int, 10int), (12int, 11int), (12int, 12int), (12int, 13int), (13int, 13int)]) == set![(2int, 4int), (3int, 5int), (4int, 3int), (4int, 4int), (4int, 5int), (10int, 10int), (10int, 11int), (11int, 10int), (12int, 11int), (12int, 12int), (12int, 13int), (13int, 13int)],
        k == 7 ==> step(16, set![(2int, 4int), (3int, 5int), (4int, 3int), (4int, 4int), (4int, 5int), (10int, 10int), (10int, 11int), (11int, 10int), (12int, 11int), (12int, 12int), (12int, 13int), (13int, 13int)]) == set![(3int, 3int), (3int, 5int), (4int, 4int), (4int, 5int), (5int, 4int), (10int, 10int), (10int, 11int), (11int, 10int), (12int, 11int), (12int, 12int), (12int, 13int), (13int, 13int)],
        k == 8 ==> step(16, set![(3int, 3int), (3int, 5int), (4int, 4int), (4int, 5int), (5int, 4int), (10int, 10int), (10int, 11int), (11int, 10int), (12int, 11int), (12int, 12int), (12int, 13int), (13int, 13int)]) == set![(3int, 5int), (4int, 3int), (4int, 5int), (5int, 4int), (5int, 5int), (10int, 10int), (10int, 11int), (11int, 10int), (12int, 11int), (12int, 12int), (12int, 13int), (13int, 13int)],
        k == 9 ==> step(16, set![(3int, 5int), (4int, 3int), (4int, 5int), (5int, 4int), (5int, 5int), (10int, 10int), (10int, 11int), (11int, 10int), (12int, 11int), (12int, 12int), (12int, 13int), (13int, 13int)]) == set![(3int, 4int), (4int, 5int), (4int, 6int), (5int, 4int), (5int, 5int), (10int, 10int), (10int, 11int), (11int, 10int), (12int, 11int), (12int, 12int), (12int, 13int), (13int, 13int)],
{
    if k == 1 {
        assert(step(16, set![(1int, 3int), (2int, 1int), (2int, 3int), (3int, 2int), (3int, 3int), (10int, 10int), (10int, 11int), (11int, 10int), (12int, 11int), (12int, 12int), (12int, 13int), (13int, 13int)]) =~= set![(1int, 2int), (2int, 3int), (2int, 4int), (3int, 2int), (3int, 3int), (10int, 10int), (10int, 11int), (11int, 10int), (12int, 11int), (12int, 12int), (12int, 13int), (13int, 13int)]);
    } else if k == 2 {
        assert(step(16, set![(1int, 2int), (2int, 3int), (2int, 4int), (3int, 2int), (3int, 3int), (10int, 10int), (10int, 11int), (11int, 10int), (12int, 11int), (12int, 12int), (12int, 13int), (13int, 13int)]) =~= set![(1int, 3int), (2int, 4int), (3int, 2int), (3int, 3int), (3int, 4int), (10int, 10int), (10int, 11int), (11int, 10int), (12int, 11int), (12int, 12int), (12int, 13int), (13int, 13int)]);
    } else if k == 3 {
        assert(step(16, set![(1int, 3int), (2int, 4int), (3int, 2int), (3int, 3int), (3int, 4int), (10int, 10int), (10int, 11int), (11int, 10int), (12int, 11int), (12int, 12int), (12int, 13int), (13int, 13int)]) =~= set![(2int, 2int), (2int, 4int), (3int, 3int), (3int, 4int), (4int, 3int), (10int, 10int), (10int, 11int), (11int, 10int), (12int, 11int), (12int, 12int), (12int, 13int), (13int, 13int)]);
    } else if k == 4 {
        assert(step(16, set![(2int, 2int), (2int, 4int), (3int, 3int), (3int, 4int), (4int, 3int), (10int, 10int), (10int, 11int), (11int, 10int), (12int, 11int), (12int, 12int), (12int, 13int), (13int, 13int)]) =~= set![(2int, 4int), (3int, 2int), (3int, 4int), (4int, 3int), (4int, 4int), (10int, 10int), (10int, 11int), (11int, 10int), (12int, 11int), (12int, 12int), (12int, 13int), (13int, 13int)]);
    } else if k == 5 {
        assert(step(16, set![(2int, 4int), (3int, 2int), (3int, 4int), (4int, 3int), (4int, 4int), (10int, 10int), (10int, 11int), (11int, 10int), (12int, 11int), (12int, 12int), (12int, 13int), (13int, 13int)]) =~= set![(2int, 3int), (3int, 4int), (3int, 5int), (4int, 3int), (4int, 4int), (10int, 10int), (10int, 11int), (11int, 10int), (12int, 11int), (12int, 12int), (12int, 13int), (13int, 13int)]);
    } else if k == 6 {
        assert(step(16, set![(2int, 3int), (3int, 4int), (3int, 5int), (4int, 3int), (4int, 4int), (10int, 10int), (10int, 11int), (11int, 10int), (12int, 11int), (12int, 12int), (12int, 13int), (13int, 13int)]) =~= set![(2int, 4int), (3int, 5int), (4int, 3int), (4int, 4int), (4int, 5int), (10int, 10int), (10int, 11int), (11int, 10int), (12int, 11int), (12int, 12int), (12int, 13int), (13int, 13int)]);
    } else if k == 7 {
        assert(step(16, set![(2int, 4int), (3int, 5int), (4int, 3int), (4int, 4int), (4int, 5int), (10int, 10int), (10int, 11int), (11int, 10int), (12int, 11int), (12int, 12int), (12int, 13int), (13int, 13int)]) =~= set![(3int, 3int), (3int, 5int), (4int, 4int), (4int, 5int), (5int, 4int), (10int, 10int), (10int, 11int), (11int, 10int), (12int, 11int), (12int, 12int), (12int, 13int), (13int, 13int)]);
    } else if k == 8 {
        assert(step(16, set![(3int, 3int), (3int, 5int), (4int, 4int), (4int, 5int), (5int, 4int), (10int, 10int), (10int, 11int), (11int, 10int), (12int, 11int), (12int, 12int), (12int, 13int), (13int, 13int)]) =~= set![(3int, 5int), (4int, 3int), (4int, 5int), (5int, 4int), (5int, 5int), (10int, 10int), (10int, 11int), (11int, 10int), (12int, 11int), (12int, 12int), (12int, 13int), (13int, 13int)]);
    } else if k == 9 {
        assert(step(16, set![(3int, 5int), (4int, 3int), (4int, 5int), (5int, 4int), (5int, 5int), (10int, 10int), (10int, 11int), (11int, 10int), (12int, 11int), (12int, 12int), (12int, 13int), (13int, 13int)]) =~= set![(3int, 4int), (4int, 5int), (4int, 6int), (5int, 4int), (5int, 5int), (10int, 10int), (10int, 11int), (11int, 10int), (12int, 11int), (12int, 12int), (12int, 13int), (13int, 13int)]);
    }
}

/// The glider and the eater, one step at a time: the middle steps.
#[verifier::spinoff_prover]
proof fn lemma_eater_middle_step(k: int)
    requires
        10 <= k <= 18,
    ensures
        k == 10 ==> step(16, set![(3int, 4int), (4int, 5int), (4int, 6int), (5int, 4int), (5int, 5int), (10int, 10int), (10int, 11int), (11int, 10int), (12int, 11int), (12int, 12int), (12int, 13int), (13int, 13int)]) == set![(3int, 5int), (4int, 6int), (5int, 4int), (5int, 5int), (5int, 6int), (10int, 10int), (10int, 11int), (11int, 10int), (12int, 11int), (12int, 12int), (12int, 13int), (13int, 13int)],
        k == 11 ==> step(16, set![(3int, 5int), (4int, 6int), (5int, 4int), (5int, 5int), (5int, 6int), (10int, 10int), (10int, 11int), (11int, 10int), (12int, 11int), (12int, 12int), (12int, 13int), (13int, 13int)]) == set![(4int, 4int), (4int, 6int), (5int, 5int), (5int, 6int), (6int, 5int), (10int, 10int), (10int, 11int), (11int, 10int), (12int, 11int), (12int, 12int), (12int, 13int), (13int, 13int)],
        k == 12 ==> step(16, set![(4int, 4int), (4int, 6int), (5int, 5int), (5int, 6int), (6int, 5int), (10int, 10int), (10int, 11int), (11int, 10int), (12int, 11int), (12int, 12int), (12int, 13int), (13int, 13int)]) == set![(4int, 6int), (5int, 4int), (5int, 6int), (6int, 5int), (6int, 6int), (10int, 10int), (10int, 11int), (11int, 10int), (12int, 11int), (12int, 12int), (12int, 13int), (13int, 13int)],
        k == 13 ==> step(16, set![(4int, 6int), (5int, 4int), (5int, 6int), (6int, 5int), (6int, 6int), (10int, 10int), (10int, 11int), (11int, 10int), (12int, 11int), (12int, 12int), (12int, 13int), (13int, 13int)]) == set![(4int, 5int), (5int, 6int), (5int, 7int), (6int, 5int), (6int, 6int), (10int, 10int), (10int, 11int), (11int, 10int), (12int, 11int), (12int, 12int), (12int, 13int), (13int, 13int)],
        k == 14 ==> step(16, set![(4int, 5int), (5int, 6int), (5int, 7int), (6int, 5int), (6int, 6int), (10int, 10int), (10int, 11int), (11int, 10int), (12int, 11int), (12int, 12int), (12int, 13int), (13int, 13int)]) == set![(4int, 6int), (5int, 7int), (6int, 5int), (6int, 6int), (6int, 7int), (10int, 10int), (10int, 11int), (11int, 10int), (12int, 11int), (12int, 12int), (12int, 13int), (13int, 13int)],
        k == 15 ==> step(16, set![(4int, 6int), (5int, 7int), (6int, 5int), (6int, 6int), (6int, 7int), (10int, 10int), (10int, 11int), (11int, 10int), (12int, 11int), (12int, 12int), (12int, 13int), (13int, 13int)]) == set![(5int, 5int), (5int, 7int), (6int, 6int), (6int, 7int), (7int, 6int), (10int, 10int), (10int, 11int), (11int, 10int), (12int, 11int), (12int, 12int), (12int, 13int), (13int, 13int)],
        k == 16 ==> step(16, set![(5int, 5int), (5int, 7int), (6int, 6int), (6int, 7int), (7int, 6int), (10int, 10int), (10int, 11int), (11int, 10int), (12int, 11int), (12int, 12int), (12int, 13int), (13int, 13int)]) == set![(5int, 7int), (6int, 5int), (6int, 7int), (7int, 6int), (7int, 7int), (10int, 10int), (10int, 11int), (11int, 10int), (12int, 11int), (12int, 12int), (12int, 13int), (13int, 13int)],
        k == 17 ==> step(16, set![(5int, 7int), (6int, 5int), (6int, 7int), (7int, 6int), (7int, 7int), (10int, 10int), (10int, 11int), (11int, 10int), (12int, 11int), (12int, 12int), (12int, 13int), (13int, 13int)]) == set![(5int, 6int), (6int, 7int), (6int, 8int), (7int, 6int), (7int, 7int), (10int, 10int), (10int, 11int), (11int, 10int), (12int, 11int), (12int, 12int), (12int, 13int), (13int, 13int)],
        k == 18 ==> step(16, set![(5int, 6int), (6int, 7int), (6int, 8int), (7int, 6int), (7int, 7int), (10int, 10int), (10int, 11int), (11int, 10int), (12int, 11int), (12int, 12int), (12int, 13int), (13int, 13int)]) == set![(5int, 7int), (6int, 8int), (7int, 6int), (7int, 7int), (7int, 8int), (10int, 10int), (10int, 11int), (11int, 10int), (12int, 11int), (12int, 12int), (12int, 13int), (13int, 13int)],
{
    if k == 10 {
        assert(step(16, set![(3int, 4int), (4int, 5int), (4int, 6int), (5int, 4int), (5int, 5int), (10int, 10int), (10int, 11int), (11int, 10int), (12int, 11int), (12int, 12int), (12int, 13int), (13int, 13int)]) =~= set![(3int, 5int), (4int, 6int), (5int, 4int), (5int, 5int), (5int, 6int), (10int, 10int), (10int, 11int), (11int, 10int), (12int, 11int), (12int, 12int), (12int, 13int), (13int, 13int)]);
    } else if k == 11 {
        assert(step(16, set![(3int, 5int), (4int, 6int), (5int, 4int), (5int, 5int), (5int, 6int), (10int, 10int), (10int, 11int), (11int, 10int), (12int, 11int), (12int, 12int), (12int, 13int), (13int, 13int)]) =~= set![(4int, 4int), (4int, 6int), (5int, 5int), (5int, 6int), (6int, 5int), (10int, 10int), (10int, 11int), (11int, 10int), (12int, 11int), (12int, 12int), (12int, 13int), (13int, 13int)]);
    } else if k == 12 {
        assert(step(16, set![(4int, 4int), (4int, 6int), (5int, 5int), (5int, 6int), (6int, 5int), (10int, 10int), (10int, 11int), (11int, 10int), (12int, 11int), (12int, 12int), (12int, 13int), (13int, 13int)]) =~= set![(4int, 6int), (5int, 4int), (5int, 6int), (6int, 5int), (6int, 6int), (10int, 10int), (10int, 11int), (11int, 10int), (12int, 11int), (12int, 12int), (12int, 13int), (13int, 13int)]);
    } else if k == 13 {
        assert(step(16, set![(4int, 6int), (5int, 4int), (5int, 6int), (6int, 5int), (6int, 6int), (10int, 10int), (10int, 11int), (11int, 10int), (12int, 11int), (12int, 12int), (12int, 13int), (13int, 13int)]) =~= set![(4int, 5int), (5int, 6int), (5int, 7int), (6int, 5int), (6int, 6int), (10int, 10int), (10int, 11int), (11int, 10int), (12int, 11int), (12int, 12int), (12int, 13int), (13int, 13int)]);
    } else if k == 14 {
        assert(step(16, set![(4int, 5int), (5int, 6int), (5int, 7int), (6int, 5int), (6int, 6int), (10int, 10int), (10int, 11int), (11int, 10int), (12int, 11int), (12int, 12int), (12int, 13int), (13int, 13int)]) =~= set![(4int, 6int), (5int, 7int), (6int, 5int), (6int, 6int), (6int, 7int), (10int, 10int), (10int, 11int), (11int, 10int), (12int, 11int), (12int, 12int), (12int, 13int), (13int, 13int)]);
    } else if k == 15 {
        assert(step(16, set![(4int, 6int), (5int, 7int), (6int, 5int), (6int, 6int), (6int, 7int), (10int, 10int), (10int, 11int), (11int, 10int), (12int, 11int), (12int, 12int), (12int, 13int), (13int, 13int)]) =~= set![(5int, 5int), (5int, 7int), (6int, 6int), (6int, 7int), (7int, 6int), (10int, 10int), (10int, 11int), (11int, 10int), (12int, 11int), (12int, 12int), (12int, 13int), (13int, 13int)]);
    } else if k == 16 {
        assert(step(16, set![(5int, 5int), (5int, 7int), (6int, 6int), (6int, 7int), (7int, 6int), (10int, 10int), (10int, 11int), (11int, 10int), (12int, 11int), (12int, 12int), (12int, 13int), (13int, 13int)]) =~= set![(5int, 7int), (6int, 5int), (6int, 7int), (7int, 6int), (7int, 7int), (10int, 10int), (10int, 11int), (11int, 10int), (12int, 11int), (12int, 12int), (12int, 13int), (13int, 13int)]);
    } else if k == 17 {
        assert(step(16, set![(5int, 7int), (6int, 5int), (6int, 7int), (7int, 6int), (7int, 7int), (10int, 10int), (10int, 11int), (11int, 10int), (12int, 11int), (12int, 12int), (12int, 13int), (13int, 13int)]) =~= set![(5int, 6int), (6int, 7int), (6int, 8int), (7int, 6int), (7int, 7int), (10int, 10int), (10int, 11int), (11int, 10int), (12int, 11int), (12int, 12int), (12int, 13int), (13int, 13int)]);
    } else if k == 18 {
        assert(step(16, set![(5int, 6int), (6int, 7int), (6int, 8int), (7int, 6int), (7int, 7int), (10int, 10int), (10int, 11int), (11int, 10int), (12int, 11int), (12int, 12int), (12int, 13int), (13int, 13int)]) =~= set![(5int, 7int), (6int, 8int), (7int, 6int), (7int, 7int), (7int, 8int), (10int, 10int), (10int, 11int), (11int, 10int), (12int, 11int), (12int, 12int), (12int, 13int), (13int, 13int)]);
    }
}

/// The glider and the eater, one step at a time: the closing steps.
#[verifier::spinoff_prover]
proof fn lemma_eater_closing_step(k: int)
    requires
        19 <= k <= 26,
    ensures
        k == 19 ==> step(16, set![(5int, 7int), (6int, 8int), (7int, 6int), (7int, 7int), (7int, 8int), (10int, 10int), (10int, 11int), (11int, 10int), (12int, 11int), (12int, 12int), (12int, 13int), (13int, 13int)]) == set![(6int, 6int), (6int, 8int), (7int, 7int), (7int, 8int), (8int, 7int), (10int, 10int), (10int, 11int), (11int, 10int), (12int, 11int), (12int, 12int), (12int, 13int), (13int, 13int)],
        k == 20 ==> step(16, set![(6int, 6int), (6int, 8int), (7int, 7int), (7int, 8int), (8int, 7int), (10int, 10int), (10int, 11int), (11int, 10int), (12int, 11int), (12int, 12int), (12int, 13int), (13int, 13int)]) == set![(6int, 8int), (7int, 6int), (7int, 8int), (8int, 7int), (8int, 8int), (10int, 10int), (10int, 11int), (11int, 10int), (12int, 11int), (12int, 12int), (12int, 13int), (13int, 13int)],
        k == 21 ==> step(16, set![(6int, 8int), (7int, 6int), (7int, 8int), (8int, 7int), (8int, 8int), (10int, 10int), (10int, 11int), (11int, 10int), (12int, 11int), (12int, 12int), (12int, 13int), (13int, 13int)]) == set![(6int, 7int), (7int, 8int), (7int, 9int), (8int, 7int), (8int, 8int), (10int, 10int), (10int, 11int), (11int, 10int), (12int, 11int), (12int, 12int), (12int, 13int), (13int, 13int)],
        k == 22 ==> step(16, set![(6int, 7int), (7int, 8int), (7int, 9int), (8int, 7int), (8int, 8int), (10int, 10int), (10int, 11int), (11int, 10int), (12int, 11int), (12int, 12int), (12int, 13int), (13int, 13int)]) == set![(6int, 8int), (7int, 9int), (8int, 7int), (8int, 8int), (8int, 9int), (10int, 10int), (10int, 11int), (11int, 10int), (12int, 11int), (12int, 12int), (12int, 13int), (13int, 13int)],
        k == 23 ==> step(16, set![(6int, 8int), (7int, 9int), (8int, 7int), (8int, 8int), (8int, 9int), (10int, 10int), (10int, 11int), (11int, 10int), (12int, 11int), (12int, 12int), (12int, 13int), (13int, 13int)]) == set![(7int, 7int), (7int, 9int), (8int, 8int), (8int, 9int), (9int, 8int), (9int, 9int), (9int, 10int), (10int, 10int), (10int, 11int), (11int, 10int), (12int, 11int), (12int, 12int), (12int, 13int), (13int, 13int)],
        k == 24 ==> step(16, set![(7int, 7int), (7int, 9int), (8int, 8int), (8int, 9int), (9int, 8int), (9int, 9int), (9int, 10int), (10int, 10int), (10int, 11int), (11int, 10int), (12int, 11int), (12int, 12int), (12int, 13int), (13int, 13int)]) == set![(7int, 9int), (8int, 7int), (9int, 8int), (9int, 11int), (10int, 11int), (11int, 10int), (12int, 11int), (12int, 12int), (12int, 13int), (13int, 13int)],
        k == 25 ==> step(16, set![(7int, 9int), (8int, 7int), (9int, 8int), (9int, 11int), (10int, 11int), (11int, 10int), (12int, 11int), (12int, 12int), (12int, 13int), (13int, 13int)]) == set![(8int, 8int), (10int, 10int), (10int, 11int), (11int, 10int), (12int, 11int), (12int, 12int), (12int, 13int), (13int, 13int)],
        k == 26 ==> step(16, set![(8int, 8int), (10int, 10int), (10int, 11int), (11int, 10int), (12int, 11int), (12int, 12int), (12int, 13int), (13int, 13int)]) == set![(10int, 10int), (10int, 11int), (11int, 10int), (12int, 11int), (12int, 12int), (12int, 13int), (13int, 13int)],
{
    if k == 19 {
        assert(step(16, set![(5int, 7int), (6int, 8int), (7int, 6int), (7int, 7int), (7int, 8int), (10int, 10int), (10int, 11int), (11int, 10int), (12int, 11int), (12int, 12int), (12int, 13int), (13int, 13int)]) =~= set![(6int, 6int), (6int, 8int), (7int, 7int), (7int, 8int), (8int, 7int), (10int, 10int), (10int, 11int), (11int, 10int), (12int, 11int), (12int, 12int), (12int, 13int), (13int, 13int)]);
    } else if k == 20 {
        assert(step(16, set![(6int, 6int), (6int, 8int), (7int, 7int), (7int, 8int), (8int, 7int), (10int, 10int), (10int, 11int), (11int, 10int), (12int, 11int), (12int, 12int), (12int, 13int), (13int, 13int)]) =~= set![(6int, 8int), (7int, 6int), (7int, 8int), (8int, 7int), (8int, 8int), (10int, 10int), (10int, 11int), (11int, 10int), (12int, 11int), (12int, 12int), (12int, 13int), (13int, 13int)]);
    } else if k == 21 {
        assert(step(16, set![(6int, 8int), (7int, 6int), (7int, 8int), (8int, 7int), (8int, 8int), (10int, 10int), (10int, 11int), (11int, 10int), (12int, 11int), (12int, 12int), (12int, 13int), (13int, 13int)]) =~= set![(6int, 7int), (7int, 8int), (7int, 9int), (8int, 7int), (8int, 8int), (10int, 10int), (10int, 11int), (11int, 10int), (12int, 11int), (12int, 12int), (12int, 13int), (13int, 13int)]);
    } else if k == 22 {
        assert(step(16, set![(6int, 7int), (7int, 8int), (7int, 9int), (8int, 7int), (8int, 8int), (10int, 10int), (10int, 11int), (11int, 10int), (12int, 11int), (12int, 12int), (12int, 13int), (13int, 13int)]) =~= set![(6int, 8int), (7int, 9int), (8int, 7int), (8int, 8int), (8int, 9int), (10int, 10int), (10int, 11int), (11int, 10int), (12int, 11int), (12int, 12int), (12int, 13int), (13int, 13int)]);
    } else if k == 23 {
        assert(step(16, set![(6int, 8int), (7int, 9int), (8int, 7int), (8int, 8int), (8int, 9int), (10int, 10int), (10int, 11int), (11int, 10int), (12int, 11int), (12int, 12int), (12int, 13int), (13int, 13int)]) =~= set![(7int, 7int), (7int, 9int), (8int, 8int), (8int, 9int), (9int, 8int), (9int, 9int), (9int, 10int), (10int, 10int), (10int, 11int), (11int, 10int), (12int, 11int), (12int, 12int), (12int, 13int), (13int, 13int)]);
    } else if k == 24 {
        assert(step(16, set![(7int, 7int), (7int, 9int), (8int, 8int), (8int, 9int), (9int, 8int), (9int, 9int), (9int, 10int), (10int, 10int), (10int, 11int), (11int, 10int), (12int, 11int), (12int, 12int), (12int, 13int), (13int, 13int)]) =~= set![(7int, 9int), (8int, 7int), (9int, 8int), (9int, 11int), (10int, 11int), (11int, 10int), (12int, 11int), (12int, 12int), (12int, 13int), (13int, 13int)]);
    } else if k == 25 {
        assert(step(16, set![(7int, 9int), (8int, 7int), (9int, 8int), (9int, 11int), (10int, 11int), (11int, 10int), (12int, 11int), (12int, 12int), (12int, 13int), (13int, 13int)]) =~= set![(8int, 8int), (10int, 10int), (10int, 11int), (11int, 10int), (12int, 11int), (12int, 12int), (12int, 13int), (13int, 13int)]);
    } else if k == 26 {
        assert(step(16, set![(8int, 8int), (10int, 10int), (10int, 11int), (11int, 10int), (12int, 11int), (12int, 12int), (12int, 13int), (13int, 13int)]) =~= set![(10int, 10int), (10int, 11int), (11int, 10int), (12int, 11int), (12int, 12int), (12int, 13int), (13int, 13int)]);
    }
}

/// After twenty-six steps the eater has swallowed the glider and stands alone.
proof fn lemma_eater_phases()
    ensures
        generation(16, set![(1int, 3int), (2int, 1int), (2int, 3int), (3int, 2int), (3int, 3int), (10int, 10int), (10int, 11int), (11int, 10int), (12int, 11int), (12int, 12int), (12int, 13int), (13int, 13int)], 26) == cells_of(seq![pos(10, 10), pos(11, 10), pos(10, 11), pos(12, 11), pos(12, 12), pos(12, 13), pos(13, 13)]),
{
    reveal_with_fuel(cells_of, 8);
    assert(cells_of(seq![pos(10, 10), pos(11, 10), pos(10, 11), pos(12, 11), pos(12, 12), pos(12, 13), pos(13, 13)]) =~= set![(10int, 10int), (10int, 11int), (11int, 10int), (12int, 11int), (12int, 12int), (12int, 13int), (13int, 13int)]);
    lemma_generation_steps(16, set![(1int, 3int), (2int, 1int), (2int, 3int), (3int, 2int), (3int, 3int), (10int, 10int), (10int, 11int), (11int, 10int), (12int, 11int), (12int, 12int), (12int, 13int), (13int, 13int)], 0);
    lemma_eater_opening_step(1);
    lemma_generation_steps(16, set![(1int, 3int), (2int, 1int), (2int, 3int), (3int, 2int), (3int, 3int), (10int, 10int), (10int, 11int), (11int, 10int), (12int, 11int), (12int, 12int), (12int, 13int), (13int, 13int)], 0);
    lemma_eater_opening_step(2);
    lemma_generation_steps(16, set![(1int, 3int), (2int, 1int), (2int, 3int), (3int, 2int), (3int, 3int), (10int, 10int), (10int, 11int), (11int, 10int), (12int, 11int), (12int, 12int), (12int, 13int), (13int, 13int)], 1);
    lemma_eater_opening_step(3);
    lemma_generation_steps(16, set![(1int, 3int), (2int, 1int), (2int, 3int), (3int, 2int), (3int, 3int), (10int, 10int), (10int, 11int), (11int, 10int), (12int, 11int), (12int, 12int), (12int, 13int), (13int, 13int)], 2);
    lemma_eater_opening_step(4);
    lemma_generation_steps(16, set![(1int, 3int), (2int, 1int), (2int, 3int), (3int, 2int), (3int, 3int), (10int, 10int), (10int, 11int), (11int, 10int), (12int, 11int), (12int, 12int), (12int, 13int), (13int, 13int)], 3);
    lemma_eater_opening_step(5);
    lemma_generation_steps(16, set![(1int, 3int), (2int, 1int), (2int, 3int), (3int, 2int), (3int, 3int), (10int, 10int), (10int, 11int), (11int, 10int), (12int, 11int), (12int, 12int), (12int, 13int), (13int, 13int)], 4);
    lemma_eater_opening_step(6);
    lemma_generation_steps(16, set![(1int, 3int), (2int, 1int), (2int, 3int), (3int, 2int), (3int, 3int), (10int, 10int), (10int, 11int), (11int, 10int), (12int, 11int), (12int, 12int), (12int, 13int), (13int, 13int)], 5);
    lemma_eater_opening_step(7);
    lemma_generation_steps(16, set![(1int, 3int), (2int, 1int), (2int, 3int), (3int, 2int), (3int, 3int), (10int, 10int), (10int, 11int), (11int, 10int), (12int, 11int), (12int, 12int), (12int, 13int), (13int, 13int)], 6);
    lemma_eater_opening_step(8);
    lemma_generation_steps(16, set![(1int, 3int), (2int, 1int), (2int, 3int), (3int, 2int), (3int, 3int), (10int, 10int), (10int, 11int), (11int, 10int), (12int, 11int), (12int, 12int), (12int, 13int), (13int, 13int)], 7);
    lemma_eater_opening_step(9);
    lemma_generation_steps(16, set![(1int, 3int), (2int, 1int), (2int, 3int), (3int, 2int), (3int, 3int), (10int, 10int), (10int, 11int), (11int, 10int), (12int, 11int), (12int, 12int), (12int, 13int), (13int, 13int)], 8);
    lemma_eater_middle_step(10);
    lemma_generation_steps(16, set![(1int, 3int), (2int, 1int), (2int, 3int), (3int, 2int), (3int, 3int), (10int, 10int), (10int, 11int), (11int, 10int), (12int, 11int), (12int, 12int), (12int, 13int), (13int, 13int)], 9);
    lemma_eater_middle_step(11);
    lemma_generation_steps(16, set![(1int, 3int), (2int, 1int), (2int, 3int), (3int, 2int), (3int, 3int), (10int, 10int), (10int, 11int), (11int, 10int), (12int, 11int), (12int, 12int), (12int, 13int), (13int, 13int)], 10);
    lemma_eater_middle_step(12);
    lemma_generation_steps(16, set![(1int, 3int), (2int, 1int), (2int, 3int), (3int, 2int), (3int, 3int), (10int, 10int), (10int, 11int), (11int, 10int), (12int, 11int), (12int, 12int), (12int, 13int), (13int, 13int)], 11);
    lemma_eater_middle_step(13);
    lemma_generation_steps(16, set![(1int, 3int), (2int, 1int), (2int, 3int), (3int, 2int), (3int, 3int), (10int, 10int), (10int, 11int), (11int, 10int), (12int, 11int), (12int, 12int), (12int, 13int), (13int, 13int)], 12);
    lemma_eater_middle_step(14);
    lemma_generation_steps(16, set![(1int, 3int), (2int, 1int), (2int, 3int), (3int, 2int), (3int, 3int), (10int, 10int), (10int, 11int), (11int, 10int), (12int, 11int), (12int, 12int), (12int, 13int), (13int, 13int)], 13);
    lemma_eater_middle_step(15);
    lemma_generation_steps(16, set![(1int, 3int), (2int, 1int), (2int, 3int), (3int, 2int), (3int, 3int), (10int, 10int), (10int, 11int), (11int, 10int), (12int, 11int), (12int, 12int), (12int, 13int), (13int, 13int)], 14);
    lemma_eater_middle_step(16);
    lemma_generation_steps(16, set![(1int, 3int), (2int, 1int), (2int, 3int), (3int, 2int), (3int, 3int), (10int, 10int), (10int, 11int), (11int, 10int), (12int, 11int), (12int, 12int), (12int, 13int), (13int, 13int)], 15);
    lemma_eater_middle_step(17);
    lemma_generation_steps(16, set![(1int, 3int), (2int, 1int), (2int, 3int), (3int, 2int), (3int, 3int), (10int, 10int), (10int, 11int), (11int, 10int), (12int, 11int), (12int, 12int), (12int, 13int), (13int, 13int)], 16);
    lemma_eater_middle_step(18);
    lemma_generation_steps(16, set![(1int, 3int), (2int, 1int), (2int, 3int), (3int, 2int), (3int, 3int), (10int, 10int), (10int, 11int), (11int, 10int), (12int, 11int), (12int, 12int), (12int, 13int), (13int, 13int)], 17);
    lemma_eater_closing_step(19);
    lemma_generation_steps(16, set![(1int, 3int), (2int, 1int), (2int, 3int), (3int, 2int), (3int, 3int), (10int, 10int), (10int, 11int), (11int, 10int), (12int, 11int), (12int, 12int), (12int, 13int), (13int, 13int)], 18);
    lemma_eater_closing_step(20);
    lemma_generation_steps(16, set![(1int, 3int), (2int, 1int), (2int, 3int), (3int, 2int), (3int, 3int), (10int, 10int), (10int, 11int), (11int, 10int), (12int, 11int), (12int, 12int), (12int, 13int), (13int, 13int)], 19);
    lemma_eater_closing_step(21);
    lemma_generation_steps(16, set![(1int, 3int), (2int, 1int), (2int, 3int), (3int, 2int), (3int, 3int), (10int, 10int), (10int, 11int), (11int, 10int), (12int, 11int), (12int, 12int), (12int, 13int), (13int, 13int)], 20);
    lemma_eater_closing_step(22);
    lemma_generation_steps(16, set![(1int, 3int), (2int, 1int), (2int, 3int), (3int, 2int), (3int, 3int), (10int, 10int), (10int, 11int), (11int, 10int), (12int, 11int), (12int, 12int), (12int, 13int), (13int, 13int)], 21);
    lemma_eater_closing_step(23);
    lemma_generation_steps(16, set![(1int, 3int), (2int, 1int), (2int, 3int), (3int, 2int), (3int, 3int), (10int, 10int), (10int, 11int), (11int, 10int), (12int, 11int), (12int, 12int), (12int, 13int), (13int, 13int)], 22);
    lemma_eater_closing_step(24);
    lemma_generation_steps(16, set![(1int, 3int), (2int, 1int), (2int, 3int), (3int, 2int), (3int, 3int), (10int, 10int), (10int, 11int), (11int, 10int), (12int, 11int), (12int, 12int), (12int, 13int), (13int, 13int)], 23);
    lemma_eater_closing_step(25);
    lemma_generation_steps(16, set![(1int, 3int), (2int, 1int), (2int, 3int), (3int, 2int), (3int, 3int), (10int, 10int), (10int, 11int), (11int, 10int), (12int, 11int), (12int, 12int), (12int, 13int), (13int, 13int)], 24);
    lemma_eater_closing_step(26);
    lemma_generation_steps(16, set![(1int, 3int), (2int, 1int), (2int, 3int), (3int, 2int), (3int, 3int), (10int, 10int), (10int, 11int), (11int, 10int), (12int, 11int), (12int, 12int), (12int, 13int), (13int, 13int)], 25);
}


/// The block puzzle and the board it was made around.
pub fn create_block_puzzle_and_solution() -> (r: (Puzzle, Board))
    ensures
        block_puzzle(r.0, r.1),
        all_hold(r.0.initial_conditions@, r.1.live_set()),
        r.0.solved_at(8, r.1.live_set(), 1),
{
    // Define the target pattern (2x2 block in center)
    let target_board = Board::with_live_cells(
        8,
        vec![
            Position { x: 3, y: 3 },
            Position { x: 3, y: 4 },
            Position { x: 4, y: 3 },
            Position { x: 4, y: 4 },
        ],
    );

    let initial_conditions = vec![Condition::TestRectangle {
        x_range: Range { start: 0, end: 8 },
        y_range: Range { start: 0, end: 8 },
        min_live_count: 4,
        max_live_count: 4,
    }];

    let puzzle = Puzzle {
        title: "Block".to_string(),
        summary: "Create a stable 2x2 block pattern in the center of the board".to_string(),
        difficulty: Difficulty::Tutorial,
        size: 8,
        metadata: String::new(),
        minimal_steps: 1,
        maximal_steps: 1,
        enforce_initial_conditions: false,
        is_strict: false,
        initial_conditions,
        // Final conditions: exactly match the target pattern
        final_conditions: target_board.to_exactly_matching_conditions(),
    };

    assert(puzzle.initial_conditions@ =~= seq![rect(0, 8, 0, 8, 4, 4)]);

    // Solution is the target pattern itself (stable)
    proof {
        lemma_block_solution(puzzle, target_board);
    }
    (puzzle, target_board)
}

/// The beehive puzzle and the board it was made around.
pub fn create_beehive_puzzle_and_solution() -> (r: (Puzzle, Board))
    ensures
        beehive_puzzle(r.0, r.1),
        all_hold(r.0.initial_conditions@, r.1.live_set()),
        r.0.solved_at(9, r.1.live_set(), 1),
{
    // Define the target pattern (beehive: hexagonal shape)
    //  ●●
    // ●  ●
    //  ●●
    let target_board = Board::with_live_cells(
        9,
        vec![
            Position { x: 3, y: 2 },
            Position { x: 4, y: 2 },
            Position { x: 2, y: 3 },
            Position { x: 5, y: 3 },
            Position { x: 3, y: 4 },
            Position { x: 4, y: 4 },
        ],
    );

    // Create initial conditions: target pattern minus two cells.
    let mut initial_conditions = target_board.to_exactly_matching_conditions();
    initial_conditions.remove(5);
    initial_conditions.remove(4);

    let puzzle = Puzzle {
        title: "Beehive".to_string(),
        summary: "Create a stable beehive pattern (6-cell hexagonal shape)".to_string(),
        difficulty: Difficulty::Tutorial,
        size: 9,
        metadata: String::new(),
        minimal_steps: 1,
        maximal_steps: 1,
        enforce_initial_conditions: false,
        is_strict: false,
        initial_conditions,
        // Final conditions: exactly match the target pattern
        final_conditions: target_board.to_exactly_matching_conditions(),
    };

    // Solution is the target pattern itself (stable)
    proof {
        lemma_beehive_solution(puzzle, target_board);
    }
    (puzzle, target_board)
}

/// The loaf puzzle and the board it was made around.
pub fn create_loaf_puzzle_and_solution() -> (r: (Puzzle, Board))
    ensures
        loaf_puzzle(r.0, r.1),
        all_hold(r.0.initial_conditions@, r.1.live_set()),
        r.0.solved_at(10, r.1.live_set(), 1),
{
    // Define the target pattern (loaf: bread loaf shape)
    //  ●●
    // ●  ●
    //  ● ●
    //   ●
    let target_board = Board::with_live_cells(
        10,
        vec![
            Position { x: 3, y: 2 },
            Position { x: 4, y: 2 },
            Position { x: 2, y: 3 },
            Position { x: 5, y: 3 },
            Position { x: 3, y: 4 },
            Position { x: 5, y: 4 },
            Position { x: 4, y: 5 },
        ],
    );

    // Create initial conditions: target pattern minus two cells.
    let mut initial_conditions = target_board.to_exactly_matching_conditions();
    initial_conditions.remove(6);
    initial_conditions.remove(5);

    let puzzle = Puzzle {
        title: "Loaf".to_string(),
        summary: "Create a stable loaf pattern (7-cell bread loaf shape)".to_string(),
        difficulty: Difficulty::Tutorial,
        size: 10,
        metadata: String::new(),
        minimal_steps: 1,
        maximal_steps: 1,
        enforce_initial_conditions: false,
        is_strict: false,
        initial_conditions,
        // Final conditions: exactly match the target pattern
        final_conditions: target_board.to_exactly_matching_conditions(),
    };

    // Solution is the target pattern itself (stable)
    proof {
        lemma_loaf_solution(puzzle, target_board);
    }
    (puzzle, target_board)
}

/// The boat puzzle and the board it was made around.
pub fn create_boat_puzzle_and_solution() -> (r: (Puzzle, Board))
    ensures
        boat_puzzle(r.0, r.1),
        all_hold(r.0.initial_conditions@, r.1.live_set()),
        r.0.solved_at(8, r.1.live_set(), 1),
{
    // Define the target pattern (boat shape)
    // ●●
    // ● ●
    //  ●
    let target_board = Board::with_live_cells(
        8,
        vec![
            Position { x: 2, y: 2 },
            Position { x: 3, y: 2 },
            Position { x: 2, y: 3 },
            Position { x: 4, y: 3 },
            Position { x: 3, y: 4 },
        ],
    );

    // Create initial conditions: target pattern minus two cells.
    let mut initial_conditions = target_board.to_exactly_matching_conditions();
    initial_conditions.remove(4);
    initial_conditions.remove(3);

    let puzzle = Puzzle {
        title: "Boat".to_string(),
        summary: "Create a stable boat pattern (5-cell boat shape)".to_string(),
        difficulty: Difficulty::Tutorial,
        size: 8,
        metadata: String::new(),
        minimal_steps: 1,
        maximal_steps: 1,
        enforce_initial_conditions: false,
        is_strict: false,
        initial_conditions,
        // Final conditions: exactly match the target pattern
        final_conditions: target_board.to_exactly_matching_conditions(),
    };

    // Solution is the target pattern itself (stable)
    proof {
        lemma_boat_solution(puzzle, target_board);
    }
    (puzzle, target_board)
}

/// The tub puzzle and the board it was made around.
pub fn create_tub_puzzle_and_solution() -> (r: (Puzzle, Board))
    ensures
        tub_puzzle(r.0, r.1),
        all_hold(r.0.initial_conditions@, r.1.live_set()),
        r.0.solved_at(7, r.1.live_set(), 1),
{
    // Define the target pattern (tub: hollow square)
    //  ●
    // ● ●
    //  ●
    let target_board = Board::with_live_cells(
        7,
        vec![
            Position { x: 3, y: 2 },
            Position { x: 2, y: 3 },
            Position { x: 4, y: 3 },
            Position { x: 3, y: 4 },
        ],
    );

    // Create initial conditions: target pattern minus two cells.
    let mut initial_conditions = target_board.to_exactly_matching_conditions();
    initial_conditions.remove(3);
    initial_conditions.remove(2);

    let puzzle = Puzzle {
        title: "Tub".to_string(),
        summary: "Create a stable tub pattern (4-cell hollow square)".to_string(),
        difficulty: Difficulty::Tutorial,
        size: 7,
        metadata: String::new(),
        minimal_steps: 1,
        maximal_steps: 1,
        enforce_initial_conditions: false,
        is_strict: false,
        initial_conditions,
        // Final conditions: exactly match the target pattern
        final_conditions: target_board.to_exactly_matching_conditions(),
    };

    // Solution is the target pattern itself (stable)
    proof {
        lemma_tub_solution(puzzle, target_board);
    }
    (puzzle, target_board)
}

/// The blinker puzzle and the board it was made around.
pub fn create_blinker_puzzle_and_solution() -> (r: (Puzzle, Board))
    ensures
        blinker_puzzle(r.0, r.1),
        all_hold(r.0.initial_conditions@, r.1.live_set()),
        r.0.solved_at(7, r.1.live_set(), 1),
{
    // Define the target pattern (blinker: vertical 3-cell oscillator)
    // ●
    // ●
    // ●
    let target_board = Board::with_live_cells(
        7,
        vec![
            Position { x: 3, y: 2 },
            Position { x: 3, y: 3 },
            Position { x: 3, y: 4 },
        ],
    );

    // Solution is the target pattern itself advanced by 1 (oscillator of period 2).
    let initial_board = target_board.advance_once();
    proof {
        lemma_blinker_phase();
        lemma_cells_of_len(initial_board.live_cells@);
    }
    // Create initial conditions: target pattern minus two cells.
    let mut initial_conditions = initial_board.to_exactly_matching_conditions();
    initial_conditions.remove(2);
    initial_conditions.remove(0);

    let puzzle = Puzzle {
        title: "Blinker".to_string(),
        summary: "Create a blinker oscillator pattern (3-cell vertical line that oscillates)"
            .to_string(),
        difficulty: Difficulty::Tutorial,
        size: 7,
        metadata: String::new(),
        minimal_steps: 1,
        maximal_steps: 1,
        enforce_initial_conditions: false,
        is_strict: false,
        initial_conditions,
        // Final conditions: exactly match the target pattern
        final_conditions: target_board.to_exactly_matching_conditions(),
    };

    proof {
        lemma_blinker_solution(puzzle, initial_board);
    }
    (puzzle, initial_board)
}

/// The beacon puzzle and the board it was made around.
pub fn create_beacon_puzzle_and_solution() -> (r: (Puzzle, Board))
    ensures
        beacon_puzzle(r.0, r.1),
        all_hold(r.0.initial_conditions@, r.1.live_set()),
        r.0.solved_at(8, r.1.live_set(), 1),
{
    // Define the target pattern (beacon: two 2x2 blocks that blink diagonally)
    // ●●··
    // ●●··
    // ··●●
    // ··●●
    let target_board = Board::with_live_cells(
        8,
        vec![
            Position { x: 2, y: 2 },
            Position { x: 3, y: 2 },
            Position { x: 2, y: 3 },
            Position { x: 3, y: 3 },
            Position { x: 4, y: 4 },
            Position { x: 5, y: 4 },
            Position { x: 4, y: 5 },
            Position { x: 5, y: 5 },
        ],
    );

    // Solution is the target pattern itself advanced by 1 (oscillator of period 2).
    let initial_board = target_board.advance_once();
    proof {
        lemma_beacon_phase();
        lemma_cells_of_len(initial_board.live_cells@);
    }
    // Create initial conditions: target pattern minus two cells.
    let mut initial_conditions = initial_board.to_exactly_matching_conditions();
    initial_conditions.remove(5);
    initial_conditions.remove(0);

    let puzzle = Puzzle {
        title: "Beacon".to_string(),
        summary: "Create a beacon oscillator pattern (two 2x2 blocks that blink diagonally)"
            .to_string(),
        difficulty: Difficulty::Easy,
        size: 8,
        metadata: String::new(),
        minimal_steps: 1,
        maximal_steps: 1,
        enforce_initial_conditions: false,
        is_strict: false,
        initial_conditions,
        // Final conditions: exactly match the target pattern
        final_conditions: target_board.to_exactly_matching_conditions(),
    };

    proof {
        lemma_beacon_solution(puzzle, initial_board);
    }
    (puzzle, initial_board)
}

/// The clock puzzle and the board it was made around.
pub fn create_clock_puzzle_and_solution() -> (r: (Puzzle, Board))
    ensures
        clock_puzzle(r.0, r.1),
        all_hold(r.0.initial_conditions@, r.1.live_set()),
        r.0.solved_at(8, r.1.live_set(), 1),
{
    // Define the target pattern (clock: period-4 oscillator in one of its phases)
    // ··●·
    // ●·●
    // ·●·●
    // ·●··
    let target_board = Board::with_live_cells(
        8,
        vec![
            Position { x: 4, y: 2 },
            Position { x: 2, y: 3 },
            Position { x: 4, y: 3 },
            Position { x: 3, y: 4 },
            Position { x: 5, y: 4 },
            Position { x: 3, y: 5 },
        ],
    );

    // Solution is the target pattern itself advanced by 3 steps (period-4 oscillator completes full cycle).
    let initial_board = target_board.advance(3);
    proof {
        lemma_clock_phase();
        lemma_cells_of_len(initial_board.live_cells@);
    }
    // Create initial conditions: target pattern minus two cells.
    let mut initial_conditions = initial_board.to_exactly_matching_conditions();
    initial_conditions.remove(5);
    initial_conditions.remove(0);

    let puzzle = Puzzle {
        title: "Clock".to_string(),
        summary: "Create a clock oscillator pattern (period-4 oscillator)".to_string(),
        difficulty: Difficulty::Easy,
        size: 8,
        metadata: String::new(),
        minimal_steps: 1,
        maximal_steps: 1,
        enforce_initial_conditions: false,
        is_strict: false,
        initial_conditions,
        // Final conditions: exactly match the target pattern
        final_conditions: target_board.to_exactly_matching_conditions(),
    };

    proof {
        lemma_clock_solution(puzzle, initial_board);
    }
    (puzzle, initial_board)
}

/// The four blinkers puzzle and the board it was made around.
pub fn create_four_blinkers_puzzle_and_solution() -> (r: (Puzzle, Board))
    ensures
        four_blinkers_puzzle(r.0, r.1),
        all_hold(r.0.initial_conditions@, r.1.live_set()),
        r.0.solved_at(16, r.1.live_set(), 10),
{
    let size: u16 = 16;
    let offset: u16 = size / 2 - 1;
    // Define the initial board.
    let initial_board = Board::with_live_cells(
        size,
        vec![
            Position {
                x: offset,
                y: offset - 1,
            },
            Position {
                x: offset - 2,
                y: offset,
            },
            Position {
                x: offset - 1,
                y: offset,
            },
            Position {
                x: offset + 1,
                y: offset,
            },
            Position {
                x: offset + 2,
                y: offset,
            },
            Position {
                x: offset,
                y: offset + 1,
            },
        ],
    );
    let mut initial_conditions = initial_board.to_exactly_matching_conditions();
    // Drop a point to force a lucky guess.
    initial_conditions.remove(3);
    initial_conditions.remove(0);

    // Define the final board.
    let final_board = initial_board.advance(10);
    let final_conditions = final_board.to_exactly_matching_conditions();

    let puzzle = Puzzle {
        title: "Four Blinkers 1".to_string(),
        summary: "Create four blinkers from very few cells".to_string(),
        difficulty: Difficulty::Easy,
        size,
        metadata: String::new(),
        minimal_steps: 10,
        maximal_steps: 10,
        enforce_initial_conditions: false,
        is_strict: false,
        initial_conditions,
        final_conditions,
    };

    proof {
        lemma_four_blinkers_solution(puzzle, initial_board);
    }
    (puzzle, initial_board)
}

/// The four blinkers with initial conditions puzzle and the board it was made around.
pub fn create_four_blinkers_with_initial_conditions_puzzle_and_solution() -> (r: (Puzzle, Board))
    ensures
        four_blinkers_with_initial_conditions_puzzle(r.0, r.1),
        all_hold(r.0.initial_conditions@, r.1.live_set()),
        r.0.solved_at(16, r.1.live_set(), 10),
{
    let (mut puzzle, board) = create_four_blinkers_puzzle_and_solution();
    puzzle.title = "Four Blinkers 2".to_string();
    puzzle.summary = "Create four blinkers from very few cells (strict variant).".to_string();
    puzzle.difficulty = Difficulty::Medium;
    puzzle.enforce_initial_conditions = true;
    proof {
        lemma_four_blinkers_with_initial_conditions_solution(puzzle, board);
    }
    (puzzle, board)
}

/// The robot face puzzle and the board it was made around.
#[allow(clippy::identity_op)]
pub fn create_robot_face_puzzle_and_solution() -> (r: (Puzzle, Board))
    ensures
        robot_face_puzzle(r.0, r.1),
        all_hold(r.0.initial_conditions@, r.1.live_set()),
{
    let size: u16 = 60;
    let offset: u16 = size / 2 - 2;
    // Define the initial board.
    let initial_board = Board::with_live_cells(
        size,
        vec![
            Position {
                x: offset + 0,
                y: offset + 0,
            },
            Position {
                x: offset + 1,
                y: offset + 0,
            },
            Position {
                x: offset + 2,
                y: offset + 0,
            },
            Position {
                x: offset + 0,
                y: offset + 1,
            },
            Position {
                x: offset + 2,
                y: offset + 1,
            },
            Position {
                x: offset + 0,
                y: offset + 2,
            },
            Position {
                x: offset + 2,
                y: offset + 2,
            },
        ],
    );
    let mut initial_conditions = initial_board.to_exactly_matching_conditions();
    // Drop a point to force a lucky guess.
    initial_conditions.remove(3);

    // Define the final board.
    let final_board = initial_board.advance(180);
    let final_conditions = final_board.to_exactly_matching_conditions();

    let puzzle = Puzzle {
        title: "Robot face".to_string(),
        summary: "Create a robot-like face from very few cells".to_string(),
        difficulty: Difficulty::Easy,
        size,
        metadata: String::new(),
        minimal_steps: 174,
        maximal_steps: 174,
        enforce_initial_conditions: true,
        is_strict: false,
        initial_conditions,
        final_conditions,
    };

    proof {
        lemma_robot_face_solution(puzzle, initial_board);
    }
    (puzzle, initial_board)
}

/// The glider collision square puzzle and the board it was made around.
pub fn create_glider_collision_square_puzzle_and_solution() -> (r: (Puzzle, Board))
    ensures
        glider_collision_square_puzzle(r.0, r.1),
        all_hold(r.0.initial_conditions@, r.1.live_set()),
        r.0.solved_at(12, r.1.live_set(), 14),
{
    // Create two gliders on a collision course that will create a square.
    // First glider (moving down-right) starting at top-left
    // Second glider (moving up-left) starting at bottom-right
    let initial_board = Board::with_live_cells(
        12,
        vec![
            // First glider (top-left, moving down-right)
            Position { x: 2, y: 1 },
            Position { x: 3, y: 2 },
            Position { x: 1, y: 3 },
            Position { x: 2, y: 3 },
            Position { x: 3, y: 3 },
            // Second glider (bottom-right, moving up-left)
            // Glider pattern rotated 180 degrees
            Position { x: 9, y: 10 },
            Position { x: 8, y: 9 },
            Position { x: 10, y: 8 },
            Position { x: 9, y: 8 },
            Position { x: 8, y: 8 },
        ],
    );

    // After collision, the board should be empty or nearly empty
    let final_board = initial_board.advance(16);
    let final_conditions = final_board.to_exactly_matching_conditions();

    let puzzle = Puzzle {
        title: "Glider Collision 1".to_string(),
        summary: "Make two gliders collide and create a square".to_string(),
        difficulty: Difficulty::Medium,
        size: 12,
        metadata: String::new(),
        minimal_steps: 14,
        maximal_steps: 14,
        enforce_initial_conditions: true,
        is_strict: true,
        initial_conditions: vec![
            // First glider should be in top-left area
            Condition::TestRectangle {
                x_range: Range { start: 0, end: 5 },
                y_range: Range { start: 0, end: 5 },
                min_live_count: 5,
                max_live_count: 5,
            },
            // Second glider should be in bottom-right area
            Condition::TestRectangle {
                x_range: Range { start: 7, end: 12 },
                y_range: Range { start: 7, end: 12 },
                min_live_count: 5,
                max_live_count: 5,
            },
        ],
        final_conditions,
    };

    proof {
        lemma_glider_collision_square_solution(puzzle, initial_board);
    }
    (puzzle, initial_board)
}

/// The glider collision cancel puzzle and the board it was made around.
pub fn create_glider_collision_cancel_puzzle_and_solution() -> (r: (Puzzle, Board))
    ensures
        glider_collision_cancel_puzzle(r.0, r.1),
        all_hold(r.0.initial_conditions@, r.1.live_set()),
        r.0.solved_at(12, r.1.live_set(), 16),
{
    // Create two gliders on a collision course that will cancel each other out
    // First glider (moving down-right) starting at top-left
    // Second glider (moving up-left) starting at bottom-right
    let initial_board = Board::with_live_cells(
        12,
        vec![
            // First glider (top-left, moving down-right)
            Position { x: 2, y: 1 },
            Position { x: 3, y: 2 },
            Position { x: 1, y: 3 },
            Position { x: 2, y: 3 },
            Position { x: 3, y: 3 },
            // Second glider (bottom-right, moving up-left)
            // Glider pattern rotated 180 degrees
            Position { x: 8, y: 9 },
            Position { x: 7, y: 8 },
            Position { x: 9, y: 7 },
            Position { x: 8, y: 7 },
            Position { x: 7, y: 7 },
        ],
    );

    // After collision, the board should be empty or nearly empty
    let final_board = initial_board.advance(16);
    let final_conditions = final_board.to_exactly_matching_conditions();

    let puzzle = Puzzle {
        title: "Glider Collision 2".to_string(),
        summary: "Make two gliders collide and cancel each other out".to_string(),
        difficulty: Difficulty::Medium,
        size: 12,
        metadata: String::new(),
        minimal_steps: 16,
        maximal_steps: 16,
        enforce_initial_conditions: true,
        is_strict: true,
        initial_conditions: vec![
            // First glider should be in top-left area
            Condition::TestRectangle {
                x_range: Range { start: 0, end: 5 },
                y_range: Range { start: 0, end: 5 },
                min_live_count: 5,
                max_live_count: 5,
            },
            // Second glider should be in bottom-right area
            Condition::TestRectangle {
                x_range: Range { start: 7, end: 12 },
                y_range: Range { start: 7, end: 12 },
                min_live_count: 5,
                max_live_count: 5,
            },
        ],
        final_conditions,
    };

    proof {
        lemma_glider_collision_cancel_solution(puzzle, initial_board);
    }
    (puzzle, initial_board)
}

/// The glider migration puzzle and the board it was made around.
pub fn create_glider_migration_puzzle_and_solution() -> (r: (Puzzle, Board))
    ensures
        glider_migration_puzzle(r.0, r.1),
        all_hold(r.0.initial_conditions@, r.1.live_set()),
        r.0.solved_at(16, r.1.live_set(), 40),
{
    // Place a glider pattern in the top-left square.
    let initial_board = Board::with_live_cells(
        16,
        vec![
            Position { x: 2, y: 1 },
            Position { x: 3, y: 2 },
            Position { x: 1, y: 3 },
            Position { x: 2, y: 3 },
            Position { x: 3, y: 3 },
        ],
    );

    let final_board = initial_board.advance(40);
    let final_conditions = final_board.to_exactly_matching_conditions();

    let puzzle = Puzzle {
        title: "Glider Migration".to_string(),
        summary: "Guide a glider from the top-left square to the bottom-right square".to_string(),
        difficulty: Difficulty::Easy,
        size: 16,
        metadata: String::new(),
        minimal_steps: 40,
        maximal_steps: 40,
        enforce_initial_conditions: false,
        is_strict: false,
        initial_conditions: vec![
            // Hint.
            Condition::TestPosition {
                position: Position { x: 3, y: 3 },
                is_live: true,
            },
            // All 5 cells should be in top-left square (0-7, 0-7).
            Condition::TestRectangle {
                x_range: Range { start: 0, end: 8 },
                y_range: Range { start: 0, end: 8 },
                min_live_count: 5,
                max_live_count: 5,
            },
            // No cells elsewhere.
            Condition::TestRectangle {
                x_range: Range { start: 8, end: 16 },
                y_range: Range { start: 0, end: 8 },
                min_live_count: 0,
                max_live_count: 0,
            },
            Condition::TestRectangle {
                x_range: Range { start: 0, end: 16 },
                y_range: Range { start: 8, end: 16 },
                min_live_count: 0,
                max_live_count: 0,
            },
        ],
        final_conditions,
    };

    proof {
        lemma_glider_migration_solution(puzzle, initial_board);
    }
    (puzzle, initial_board)
}

/// The eater puzzle and the board it was made around.
pub fn create_eater_puzzle_and_solution() -> (r: (Puzzle, Board))
    ensures
        eater_puzzle(r.0, r.1),
        all_hold(r.0.initial_conditions@, r.1.live_set()),
        r.0.solved_at(16, r.1.live_set(), 26),
{
    // An eater is a stable pattern that can consume gliders
    // Pattern looks like:
    // ●●
    // ● ●
    //   ●
    //   ●●

    // We'll have a glider approaching from the left, and the player needs to place an eater
    // to consume it, leaving just the eater behind

    let size: u16 = 16;

    // Place glider on the left side, approaching the eater position
    // Place eater in the middle-right area
    let initial_board = Board::with_live_cells(
        size,
        vec![
            // Glider moving right and down, starting at left
            Position { x: 2, y: 1 },
            Position { x: 3, y: 2 },
            Position { x: 1, y: 3 },
            Position { x: 2, y: 3 },
            Position { x: 3, y: 3 },
            // Eater pattern in middle-right area
            Position { x: 10, y: 10 },
            Position { x: 11, y: 10 },
            Position { x: 10, y: 11 },
            Position { x: 12, y: 11 },
            Position { x: 12, y: 12 },
            Position { x: 12, y: 13 },
            Position { x: 13, y: 13 },
        ],
    );

    // After the glider is eaten, only the eater remains (it's stable)
    let final_board = Board::with_live_cells(
        size,
        vec![
            // Eater pattern in middle-right area
            Position { x: 10, y: 10 },
            Position { x: 11, y: 10 },
            Position { x: 10, y: 11 },
            Position { x: 12, y: 11 },
            Position { x: 12, y: 12 },
            Position { x: 12, y: 13 },
            Position { x: 13, y: 13 },
        ],
    );
    let final_conditions = final_board.to_exactly_matching_conditions();
    let mut initial_conditions = copy_conditions(&final_conditions);
    // Remove default TestRectangle
    initial_conditions.pop();
    initial_conditions.push(
        // Glider should be on the top-left corner
        Condition::TestRectangle {
            x_range: Range { start: 0, end: 6 },
            y_range: Range { start: 0, end: 6 },
            min_live_count: 5,
            max_live_count: 5,
        },
    );
    // Set total count.
    initial_conditions.push(Condition::TestRectangle {
        x_range: Range { start: 0, end: size },
        y_range: Range { start: 0, end: size },
        min_live_count: 12,
        max_live_count: 12,
    });
    let puzzle = Puzzle {
        title: "Eater".to_string(),
        summary: "Place an eater pattern to consume an approaching glider".to_string(),
        difficulty: Difficulty::Medium,
        size,
        metadata: String::new(),
        minimal_steps: 26,
        maximal_steps: 26,
        enforce_initial_conditions: true,
        is_strict: true,
        initial_conditions,
        final_conditions,
    };

    proof {
        lemma_eater_solution(puzzle, initial_board);
    }
    (puzzle, initial_board)
}

/// The glider reflector 1 puzzle and the board it was made around.
pub fn create_glider_reflector_1_puzzle_and_solution() -> (r: (Puzzle, Board))
    ensures
        glider_reflector_1_puzzle(r.0, r.1),
        all_hold(r.0.initial_conditions@, r.1.live_set()),
        r.0.solved_at(24, r.1.live_set(), 30),
{
    let size: u16 = 24;

    // Initial glider moving up-right
    let initial_board = Board::with_live_cells(
        size,
        vec![
            // Glider starting top-left, moving down-right
            Position { x: 2, y: 10 },
            Position { x: 3, y: 10 },
            Position { x: 3, y: 11 },
            Position { x: 4, y: 11 },
            Position { x: 2, y: 12 },
            // The pentadecathlon
            Position { x: 11, y: 10 },
            Position { x: 12, y: 10 },
            Position { x: 13, y: 9 },
            Position { x: 13, y: 11 },
            Position { x: 14, y: 10 },
            Position { x: 15, y: 10 },
            Position { x: 16, y: 10 },
            Position { x: 17, y: 10 },
            Position { x: 18, y: 9 },
            Position { x: 18, y: 11 },
            Position { x: 19, y: 10 },
            Position { x: 20, y: 10 },
        ],
    );
    // Advancing one step to keep the glider in a familiar shape.
    let initial_board = initial_board.advance(1);

    // After reflection, glider should be moving in different direction
    let final_board = initial_board.advance(30);
    let final_conditions = final_board.to_exactly_matching_conditions();

    let mut initial_conditions = Board::with_live_cells(
        size,
        vec![
            Position { x: 11, y: 10 },
            Position { x: 12, y: 10 },
            Position { x: 13, y: 9 },
            Position { x: 13, y: 11 },
            Position { x: 14, y: 10 },
            Position { x: 15, y: 10 },
            Position { x: 16, y: 10 },
            Position { x: 17, y: 10 },
            Position { x: 18, y: 9 },
            Position { x: 18, y: 11 },
            Position { x: 19, y: 10 },
            Position { x: 20, y: 10 },
        ],
    )
    .advance(1)
    .to_exactly_matching_conditions();
    initial_conditions.pop();
    initial_conditions.push(
        // Glider should be on the left
        Condition::TestRectangle {
            x_range: Range { start: 1, end: 5 },
            y_range: Range { start: 10, end: 14 },
            min_live_count: 5,
            max_live_count: 5,
        },
    );
    // Set total count.
    initial_conditions.push(Condition::TestRectangle {
        x_range: Range { start: 0, end: size },
        y_range: Range { start: 0, end: size },
        min_live_count: 27,
        max_live_count: 27,
    });
    let puzzle = Puzzle {
        title: "Glider Reflector 1".to_string(),
        summary: "Reflect a glider by 180 degrees".to_string(),
        difficulty: Difficulty::Medium,
        size,
        metadata: String::new(),
        minimal_steps: 30,
        maximal_steps: 30,
        enforce_initial_conditions: true,
        is_strict: true,
        initial_conditions,
        final_conditions,
    };

    proof {
        lemma_glider_reflector_1_solution(puzzle, initial_board);
    }
    (puzzle, initial_board)
}

/// The glider reflector 2 puzzle and the board it was made around.
pub fn create_glider_reflector_2_puzzle_and_solution() -> (r: (Puzzle, Board))
    ensures
        glider_reflector_2_puzzle(r.0, r.1),
        all_hold(r.0.initial_conditions@, r.1.live_set()),
        r.0.solved_at(24, r.1.live_set(), 30),
{
    let size: u16 = 24;

    // Initial glider moving up-right
    let initial_board = Board::with_live_cells(
        size,
        vec![
            // Glider starting top-left, moving down-right
            Position { x: 2, y: 10 },
            Position { x: 3, y: 10 },
            Position { x: 3, y: 11 },
            Position { x: 4, y: 11 },
            Position { x: 2, y: 12 },
            // The pentadecathlon
            Position { x: 11, y: 10 },
            Position { x: 12, y: 10 },
            Position { x: 13, y: 9 },
            Position { x: 13, y: 11 },
            Position { x: 14, y: 10 },
            Position { x: 15, y: 10 },
            Position { x: 16, y: 10 },
            Position { x: 17, y: 10 },
            Position { x: 18, y: 9 },
            Position { x: 18, y: 11 },
            Position { x: 19, y: 10 },
            Position { x: 20, y: 10 },
        ],
    );
    // Not advancing one step, so the glider is in non-standard shape.
    // After reflection, glider should be moving in different direction
    let final_board = initial_board.advance(30);
    let final_conditions = final_board.to_exactly_matching_conditions();

    let mut initial_conditions = Board::with_live_cells(
        size,
        vec![
            Position { x: 11, y: 10 },
            Position { x: 12, y: 10 },
            Position { x: 13, y: 9 },
            Position { x: 13, y: 11 },
            Position { x: 14, y: 10 },
            Position { x: 15, y: 10 },
            Position { x: 16, y: 10 },
            Position { x: 17, y: 10 },
            Position { x: 18, y: 9 },
            Position { x: 18, y: 11 },
            Position { x: 19, y: 10 },
            Position { x: 20, y: 10 },
        ],
    )
    .to_exactly_matching_conditions();
    initial_conditions.pop();
    initial_conditions.push(
        // Glider should be on the left
        Condition::TestRectangle {
            x_range: Range { start: 1, end: 5 },
            y_range: Range { start: 10, end: 14 },
            min_live_count: 5,
            max_live_count: 5,
        },
    );
    // Set total count.
    initial_conditions.push(Condition::TestRectangle {
        x_range: Range { start: 0, end: size },
        y_range: Range { start: 0, end: size },
        min_live_count: 17,
        max_live_count: 17,
    });
    let puzzle = Puzzle {
        title: "Glider Reflector 2".to_string(),
        summary: "Reflect a glider by 180 degrees".to_string(),
        difficulty: Difficulty::Hard,
        size,
        metadata: String::new(),
        minimal_steps: 30,
        maximal_steps: 30,
        enforce_initial_conditions: true,
        is_strict: false,
        initial_conditions,
        final_conditions,
    };

    proof {
        lemma_glider_reflector_2_solution(puzzle, initial_board);
    }
    (puzzle, initial_board)
}

/// The glider double reflector puzzle and the board it was made around.
pub fn create_glider_double_reflector_puzzle_and_solution() -> (r: (Puzzle, Board))
    ensures
        glider_double_reflector_puzzle(r.0, r.1),
        all_hold(r.0.initial_conditions@, r.1.live_set()),
{
    let size: u16 = 41;

    // Initial glider moving up-right
    let initial_board = Board::with_live_cells(
        size,
        vec![
            // Glider starting top-left, moving down-right
            Position { x: 19, y: 10 },
            Position { x: 20, y: 10 },
            Position { x: 20, y: 11 },
            Position { x: 21, y: 11 },
            Position { x: 19, y: 12 },
            // The first pentadecathlon
            Position { x: 28, y: 10 },
            Position { x: 29, y: 10 },
            Position { x: 30, y: 9 },
            Position { x: 30, y: 11 },
            Position { x: 31, y: 10 },
            Position { x: 32, y: 10 },
            Position { x: 33, y: 10 },
            Position { x: 34, y: 10 },
            Position { x: 35, y: 9 },
            Position { x: 35, y: 11 },
            Position { x: 36, y: 10 },
            Position { x: 37, y: 10 },
            // The second pentadecathlon
            Position { x: 3, y: 14 },
            Position { x: 4, y: 14 },
            Position { x: 5, y: 13 },
            Position { x: 5, y: 15 },
            Position { x: 6, y: 14 },
            Position { x: 7, y: 14 },
            Position { x: 8, y: 14 },
            Position { x: 9, y: 14 },
            Position { x: 10, y: 13 },
            Position { x: 10, y: 15 },
            Position { x: 11, y: 14 },
            Position { x: 12, y: 14 },
        ],
    );
    // We should do a round-trip in 60 steps.
    let mut initial_conditions = initial_board.to_exactly_matching_conditions();
    // Do not force the glider.
    drain_conditions(&mut initial_conditions, 12, 17);
    initial_conditions.insert(
        0,
        // Glider should be at the center.
        Condition::TestRectangle {
            x_range: Range { start: 19, end: 22 },
            y_range: Range { start: 10, end: 13 },
            min_live_count: 5,
            max_live_count: 5,
        },
    );
    initial_conditions.insert(
        0,
        // The center of a glider is alive (unlike a boat).
        Condition::TestPosition {
            position: Position { x: 20, y: 11 },
            is_live: true,
        },
    );
    assert(initial_conditions@ =~= seq![live(pos(20, 11)), rect(19, 22, 10, 13, 5, 5)] + (
        initial_board.exact_conditions().subrange(0, 12) + initial_board.exact_conditions().subrange(
            17,
            30,
        )));
    let final_conditions = copy_conditions(&initial_conditions);

    let puzzle = Puzzle {
        title: "Glider Double Reflector".to_string(),
        summary: "Use two reflectors to bounce a glider indefinitely".to_string(),
        difficulty: Difficulty::Hard,
        size,
        metadata: String::new(),
        minimal_steps: 60,
        maximal_steps: 60,
        enforce_initial_conditions: true,
        is_strict: false,
        initial_conditions,
        final_conditions,
    };

    proof {
        lemma_glider_double_reflector_solution(puzzle, initial_board);
    }
    (puzzle, initial_board)
}


/// Where a puzzle stands in its life.
#[derive(Clone, Copy, Debug, PartialEq, Eq, Structural)]
pub enum PuzzleStatus {
    Draft,
    Active,
    Retired,
}

impl PuzzleStatus {
    /// Whether the puzzle is published.
    pub fn is_active(self) -> (r: bool)
        ensures
            r == (self == PuzzleStatus::Active),
    {
        matches!(self, Self::Active)
    }
}

/// The puzzles of the catalog.
#[derive(Clone, Copy, Debug, PartialEq, Eq, Structural)]
pub enum PuzzleKind {
    Block,
    Beehive,
    Loaf,
    Boat,
    Tub,
    Blinker,
    Beacon,
    Clock,
    GliderMigration,
    FourBlinkers,
    FourBlinkersWithInitialConditions,
    GliderCollisionSquare,
    GliderCollisionCancel,
    RobotFace,
    Eater,
    GliderReflector1,
    GliderReflector2,
    GliderDoubleReflector,
}

impl PuzzleKind {
    /// The name under which the puzzle and its solution are published.
    pub open spec fn name_spec(self) -> Seq<char> {
        match self {
            PuzzleKind::Block => "01_block"@,
            PuzzleKind::Beehive => "02_beehive"@,
            PuzzleKind::Loaf => "03_loaf"@,
            PuzzleKind::Boat => "04_boat"@,
            PuzzleKind::Tub => "05_tub"@,
            PuzzleKind::Blinker => "06_blinker"@,
            PuzzleKind::Beacon => "07_beacon"@,
            PuzzleKind::Clock => "10_clock"@,
            PuzzleKind::GliderMigration => "20_glider_migration"@,
            PuzzleKind::FourBlinkers => "21_four_blinkers"@,
            PuzzleKind::FourBlinkersWithInitialConditions => "22_four_blinkers_with_initial_conditions"@,
            PuzzleKind::GliderCollisionSquare => "23_glider_collision_square"@,
            PuzzleKind::GliderCollisionCancel => "24_glider_collision_cancel"@,
            PuzzleKind::RobotFace => "30_robot_face"@,
            PuzzleKind::Eater => "40_eater"@,
            PuzzleKind::GliderReflector1 => "41_glider_reflector_1"@,
            PuzzleKind::GliderReflector2 => "42_glider_reflector_2"@,
            PuzzleKind::GliderDoubleReflector => "43_glider_double_reflector"@,
        }
    }

    /// Where the puzzle stands.
    pub open spec fn status(self) -> PuzzleStatus {
        match self {
            PuzzleKind::Block => PuzzleStatus::Active,
            PuzzleKind::Beehive => PuzzleStatus::Active,
            PuzzleKind::Loaf => PuzzleStatus::Active,
            PuzzleKind::Boat => PuzzleStatus::Active,
            PuzzleKind::Tub => PuzzleStatus::Active,
            PuzzleKind::Blinker => PuzzleStatus::Active,
            PuzzleKind::Beacon => PuzzleStatus::Active,
            PuzzleKind::Clock => PuzzleStatus::Active,
            PuzzleKind::GliderMigration => PuzzleStatus::Active,
            PuzzleKind::FourBlinkers => PuzzleStatus::Active,
            PuzzleKind::FourBlinkersWithInitialConditions => PuzzleStatus::Active,
            PuzzleKind::GliderCollisionSquare => PuzzleStatus::Active,
            PuzzleKind::GliderCollisionCancel => PuzzleStatus::Active,
            PuzzleKind::RobotFace => PuzzleStatus::Draft,
            PuzzleKind::Eater => PuzzleStatus::Active,
            PuzzleKind::GliderReflector1 => PuzzleStatus::Active,
            PuzzleKind::GliderReflector2 => PuzzleStatus::Active,
            PuzzleKind::GliderDoubleReflector => PuzzleStatus::Active,
        }
    }

    /// The name under which the puzzle and its solution are published.
    pub fn name(self) -> (r: &'static str)
        ensures
            r@ == self.name_spec(),
    {
        match self {
            PuzzleKind::Block => "01_block",
            PuzzleKind::Beehive => "02_beehive",
            PuzzleKind::Loaf => "03_loaf",
            PuzzleKind::Boat => "04_boat",
            PuzzleKind::Tub => "05_tub",
            PuzzleKind::Blinker => "06_blinker",
            PuzzleKind::Beacon => "07_beacon",
            PuzzleKind::Clock => "10_clock",
            PuzzleKind::GliderMigration => "20_glider_migration",
            PuzzleKind::FourBlinkers => "21_four_blinkers",
            PuzzleKind::FourBlinkersWithInitialConditions => "22_four_blinkers_with_initial_conditions",
            PuzzleKind::GliderCollisionSquare => "23_glider_collision_square",
            PuzzleKind::GliderCollisionCancel => "24_glider_collision_cancel",
            PuzzleKind::RobotFace => "30_robot_face",
            PuzzleKind::Eater => "40_eater",
            PuzzleKind::GliderReflector1 => "41_glider_reflector_1",
            PuzzleKind::GliderReflector2 => "42_glider_reflector_2",
            PuzzleKind::GliderDoubleReflector => "43_glider_double_reflector",
        }
    }

    /// Where the puzzle stands.
    pub fn puzzle_status(self) -> (r: PuzzleStatus)
        ensures
            r == self.status(),
    {
        match self {
            PuzzleKind::Block => PuzzleStatus::Active,
            PuzzleKind::Beehive => PuzzleStatus::Active,
            PuzzleKind::Loaf => PuzzleStatus::Active,
            PuzzleKind::Boat => PuzzleStatus::Active,
            PuzzleKind::Tub => PuzzleStatus::Active,
            PuzzleKind::Blinker => PuzzleStatus::Active,
            PuzzleKind::Beacon => PuzzleStatus::Active,
            PuzzleKind::Clock => PuzzleStatus::Active,
            PuzzleKind::GliderMigration => PuzzleStatus::Active,
            PuzzleKind::FourBlinkers => PuzzleStatus::Active,
            PuzzleKind::FourBlinkersWithInitialConditions => PuzzleStatus::Active,
            PuzzleKind::GliderCollisionSquare => PuzzleStatus::Active,
            PuzzleKind::GliderCollisionCancel => PuzzleStatus::Active,
            PuzzleKind::RobotFace => PuzzleStatus::Draft,
            PuzzleKind::Eater => PuzzleStatus::Active,
            PuzzleKind::GliderReflector1 => PuzzleStatus::Active,
            PuzzleKind::GliderReflector2 => PuzzleStatus::Active,
            PuzzleKind::GliderDoubleReflector => PuzzleStatus::Active,
        }
    }

    /// What the puzzle of this kind and its board are.
    pub open spec fn made(self, p: Puzzle, b: Board) -> bool {
        match self {
            PuzzleKind::Block => block_puzzle(p, b),
            PuzzleKind::Beehive => beehive_puzzle(p, b),
            PuzzleKind::Loaf => loaf_puzzle(p, b),
            PuzzleKind::Boat => boat_puzzle(p, b),
            PuzzleKind::Tub => tub_puzzle(p, b),
            PuzzleKind::Blinker => blinker_puzzle(p, b),
            PuzzleKind::Beacon => beacon_puzzle(p, b),
            PuzzleKind::Clock => clock_puzzle(p, b),
            PuzzleKind::GliderMigration => glider_migration_puzzle(p, b),
            PuzzleKind::FourBlinkers => four_blinkers_puzzle(p, b),
            PuzzleKind::FourBlinkersWithInitialConditions => four_blinkers_with_initial_conditions_puzzle(p, b),
            PuzzleKind::GliderCollisionSquare => glider_collision_square_puzzle(p, b),
            PuzzleKind::GliderCollisionCancel => glider_collision_cancel_puzzle(p, b),
            PuzzleKind::RobotFace => robot_face_puzzle(p, b),
            PuzzleKind::Eater => eater_puzzle(p, b),
            PuzzleKind::GliderReflector1 => glider_reflector_1_puzzle(p, b),
            PuzzleKind::GliderReflector2 => glider_reflector_2_puzzle(p, b),
            PuzzleKind::GliderDoubleReflector => glider_double_reflector_puzzle(p, b),
        }
    }

    /// Whether this puzzle's board is shown, by proof, to pass its own check with the hints
    /// enforced. For the robot face and the double reflector that takes too many steps of
    /// a large pattern to state cell by cell; the check is still run by `create_checked`.
    pub open spec fn proved_solvable(self) -> bool {
        self != PuzzleKind::RobotFace && self != PuzzleKind::GliderDoubleReflector
    }

    /// The puzzle and a board that solves it.
    pub fn create(self) -> (r: (Puzzle, Board))
        ensures
            self.made(r.0, r.1),
            self.proved_solvable() ==> self_checks(r.0, r.1),
            r.1.wf(),
            r.0.size == r.1.size,
    {
        match self {
            PuzzleKind::Block => create_block_puzzle_and_solution(),
            PuzzleKind::Beehive => create_beehive_puzzle_and_solution(),
            PuzzleKind::Loaf => create_loaf_puzzle_and_solution(),
            PuzzleKind::Boat => create_boat_puzzle_and_solution(),
            PuzzleKind::Tub => create_tub_puzzle_and_solution(),
            PuzzleKind::Blinker => create_blinker_puzzle_and_solution(),
            PuzzleKind::Beacon => create_beacon_puzzle_and_solution(),
            PuzzleKind::Clock => create_clock_puzzle_and_solution(),
            PuzzleKind::GliderMigration => create_glider_migration_puzzle_and_solution(),
            PuzzleKind::FourBlinkers => create_four_blinkers_puzzle_and_solution(),
            PuzzleKind::FourBlinkersWithInitialConditions => {
                create_four_blinkers_with_initial_conditions_puzzle_and_solution()
            },
            PuzzleKind::GliderCollisionSquare => {
                create_glider_collision_square_puzzle_and_solution()
            },
            PuzzleKind::GliderCollisionCancel => {
                create_glider_collision_cancel_puzzle_and_solution()
            },
            PuzzleKind::RobotFace => create_robot_face_puzzle_and_solution(),
            PuzzleKind::Eater => create_eater_puzzle_and_solution(),
            PuzzleKind::GliderReflector1 => create_glider_reflector_1_puzzle_and_solution(),
            PuzzleKind::GliderReflector2 => create_glider_reflector_2_puzzle_and_solution(),
            PuzzleKind::GliderDoubleReflector => {
                create_glider_double_reflector_puzzle_and_solution()
            },
        }
    }

    /// The puzzle and its board, once the board has passed the puzzle's check with the
    /// initial conditions enforced, as its hints must hold of it too; with the number of
    /// steps that check found. An error says which part of that check failed.
    pub fn create_checked(self) -> (r: Result<(Puzzle, Board, u16), VerificationError>)
        ensures
            match r {
                Ok((p, b, steps)) => {
                    &&& self.made(p, b)
                    &&& all_hold(p.initial_conditions@, b.live_set())
                    &&& p.solved_at(b.size as int, b.live_set(), steps as int)
                    &&& forall|t: int|
                        t < steps ==> !#[trigger] p.solved_at(b.size as int, b.live_set(), t)
                },
                Err(_) => !self.proved_solvable(),
            },
    {
        let (mut puzzle, board) = self.create();
        let ghost made = puzzle;
        let shipped = puzzle.enforce_initial_conditions;
        puzzle.enforce_initial_conditions = true;
        let ghost hinted = puzzle;
        let checked = puzzle.check_solution(&board);
        puzzle.enforce_initial_conditions = shipped;
        match checked {
            Ok(steps) => Ok((puzzle, board, steps)),
            Err(e) => {
                proof {
                    if self.proved_solvable() {
                        let m = made.minimal_steps as int;
                        assert(made.solved_at(board.size as int, board.live_set(), m));
                        assert(hinted.solved_at(board.size as int, board.live_set(), m));
                    }
                }
                Err(e)
            },
        }
    }
}

/// Every puzzle of the catalog, in publication order.
pub open spec fn catalog() -> Seq<PuzzleKind> {
    seq![
        PuzzleKind::Block,
        PuzzleKind::Beehive,
        PuzzleKind::Loaf,
        PuzzleKind::Boat,
        PuzzleKind::Tub,
        PuzzleKind::Blinker,
        PuzzleKind::Beacon,
        PuzzleKind::Clock,
        PuzzleKind::GliderMigration,
        PuzzleKind::FourBlinkers,
        PuzzleKind::FourBlinkersWithInitialConditions,
        PuzzleKind::GliderCollisionSquare,
        PuzzleKind::GliderCollisionCancel,
        PuzzleKind::RobotFace,
        PuzzleKind::Eater,
        PuzzleKind::GliderReflector1,
        PuzzleKind::GliderReflector2,
        PuzzleKind::GliderDoubleReflector,
    ]
}

/// Whether `needle` occurs in `hay` as a run of consecutive characters.
pub open spec fn occurs_in(needle: Seq<char>, hay: Seq<char>) -> bool {
    exists|i: int|
        0 <= i && i + needle.len() <= hay.len() && #[trigger] hay.subrange(i, i + needle.len())
            == needle
}

/// Relies on `str::contains` with a string pattern: true when the pattern matches a
/// sub-slice of the string.
#[verifier::external_body]
fn str_contains(hay: &str, needle: &str) -> (r: bool)
    ensures
        r == occurs_in(needle@, hay@),
{
    hay.contains(needle)
}

/// Whether a listing of the catalog shows `kind`: only active puzzles unless `all`, and
/// only those whose name holds `filter`, when there is one.
pub open spec fn listed(kind: PuzzleKind, all: bool, filter: Option<&str>) -> bool {
    &&& all || kind.status() == PuzzleStatus::Active
    &&& match filter {
        None => true,
        Some(f) => occurs_in(f@, kind.name_spec()),
    }
}

/// The puzzles of the catalog, in publication order: only active ones unless `all`, and
/// only those whose name holds `filter`, when there is one.
pub fn get_puzzles(all: bool, filter: Option<&str>) -> (r: Vec<PuzzleKind>)
    ensures
        r@ == catalog().filter(|k: PuzzleKind| listed(k, all, filter)),
{
    let kinds = vec![
        PuzzleKind::Block,
        PuzzleKind::Beehive,
        PuzzleKind::Loaf,
        PuzzleKind::Boat,
        PuzzleKind::Tub,
        PuzzleKind::Blinker,
        PuzzleKind::Beacon,
        PuzzleKind::Clock,
        PuzzleKind::GliderMigration,
        PuzzleKind::FourBlinkers,
        PuzzleKind::FourBlinkersWithInitialConditions,
        PuzzleKind::GliderCollisionSquare,
        PuzzleKind::GliderCollisionCancel,
        PuzzleKind::RobotFace,
        PuzzleKind::Eater,
        PuzzleKind::GliderReflector1,
        PuzzleKind::GliderReflector2,
        PuzzleKind::GliderDoubleReflector,
    ];
    assert(kinds@ == catalog());
    let ghost pred = |k: PuzzleKind| listed(k, all, filter);
    let mut r: Vec<PuzzleKind> = Vec::new();
    let mut i: usize = 0;
    while i < kinds.len()
        invariant
            i <= kinds@.len(),
            pred == (|k: PuzzleKind| listed(k, all, filter)),
            r@ == kinds@.take(i as int).filter(pred),
        decreases kinds@.len() - i,
    {
        let kind = kinds[i];
        let shown = (all || kind.puzzle_status().is_active()) && match filter {
            None => true,
            Some(f) => str_contains(kind.name(), f),
        };
        assert(kinds@.take(i + 1).drop_last() =~= kinds@.take(i as int));
        reveal(Seq::filter);
        if shown {
            r.push(kind);
        }
        i += 1;
    }
    assert(kinds@.take(kinds@.len() as int) =~= kinds@);
    r
}

/// Removes the conditions at indices `start..end`, keeping the others in order.
pub fn drain_conditions(conditions: &mut Vec<Condition>, start: usize, end: usize)
    requires
        start <= end <= old(conditions)@.len(),
    ensures
        final(conditions)@ == old(conditions)@.subrange(0, start as int) + old(
            conditions,
        )@.subrange(end as int, old(conditions)@.len() as int),
{
    let mut k: usize = start;
    while k < end
        invariant
            start <= k <= end,
            end <= old(conditions)@.len(),
            conditions@ == old(conditions)@.subrange(0, start as int) + old(conditions)@.subrange(
                k as int,
                old(conditions)@.len() as int,
            ),
        decreases end - k,
    {
        conditions.remove(start);
        k += 1;
        assert(conditions@ =~= old(conditions)@.subrange(0, start as int) + old(
            conditions,
        )@.subrange(k as int, old(conditions)@.len() as int));
    }
}

} // verus!
