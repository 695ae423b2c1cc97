use vstd::prelude::*;

use crate::board::{generation, Board};
use crate::condition::{all_hold, evaluate_all, Condition};

verus! {

/// How hard a puzzle is, from easiest to hardest.
#[derive(Clone, Copy, Debug, PartialEq, Eq, Structural, PartialOrd, Ord, Hash)]
pub enum Difficulty {
    Tutorial,
    Easy,
    Medium,
    Hard,
}

/// Why a board does not solve a puzzle.
#[derive(Clone, Copy, Debug, PartialEq, Eq, Structural)]
pub enum VerificationError {
    /// The puzzle enforces its initial conditions and the board fails one of them.
    InitialConditionsNotMet,
    /// No accepted number of steps leads to a board that meets the final conditions.
    FinalConditionsNotReached,
}

/// A puzzle: find a board that meets the initial conditions and, after a number of
/// steps in `minimal_steps..=maximal_steps`, meets the final conditions.
#[derive(Clone, Debug)]
pub struct Puzzle {
    pub title: String,
    pub summary: String,
    pub difficulty: Difficulty,
    pub size: u16,
    /// Free text that the puzzle carries along and nothing here reads.
    pub metadata: String,
    pub minimal_steps: u16,
    pub maximal_steps: u16,
    /// Whether a solution must meet the initial conditions, which are otherwise hints.
    pub enforce_initial_conditions: bool,
    /// Whether the final conditions must hold after exactly `minimal_steps` steps.
    pub is_strict: bool,
    pub initial_conditions: Vec<Condition>,
    pub final_conditions: Vec<Condition>,
}

impl Puzzle {
    /// Whether a board with live cells `cells` passes the check of initial conditions.
    pub open spec fn passes_initial(&self, cells: Set<(int, int)>) -> bool {
        !self.enforce_initial_conditions || all_hold(self.initial_conditions@, cells)
    }

    /// Whether reaching the final conditions after `steps` steps from `cells` on this
    /// puzzle's grid of side `size` is a solution.
    pub open spec fn solved_at(&self, size: int, cells: Set<(int, int)>, steps: int) -> bool {
        &&& self.minimal_steps <= steps <= self.maximal_steps
        &&& !self.is_strict || steps == self.minimal_steps
        &&& all_hold(self.final_conditions@, generation(size, cells, steps as nat))
    }

    /// Checks that `board` solves the puzzle and returns the least number of steps that
    /// leads it to the final conditions.
    pub fn check_solution(&self, board: &Board) -> (r: Result<u16, VerificationError>)
        requires
            board.wf(),
        ensures
            ({
                let cells = board.live_set();
                let size = board.size as int;
                &&& !self.passes_initial(cells) ==> r == Err::<u16, VerificationError>(
                    VerificationError::InitialConditionsNotMet,
                )
                &&& self.passes_initial(cells) ==> match r {
                    Ok(steps) => self.solved_at(size, cells, steps as int) && forall|t: int|
                        t < steps ==> !#[trigger] self.solved_at(size, cells, t),
                    Err(e) => e == VerificationError::FinalConditionsNotReached && forall|t: int|
                        !#[trigger] self.solved_at(size, cells, t),
                }
            }),
    {
        let ghost cells = board.live_set();
        let ghost size = board.size as int;
        if self.enforce_initial_conditions && !evaluate_all(&self.initial_conditions, board) {
            return Err(VerificationError::InitialConditionsNotMet);
        }
        if self.minimal_steps > self.maximal_steps {
            return Err(VerificationError::FinalConditionsNotReached);
        }
        let mut steps: u16 = self.minimal_steps;
        let mut current = board.advance(steps);
        loop
            invariant
                self.passes_initial(cells),
                cells == board.live_set(),
                size == board.size as int,
                self.minimal_steps <= steps <= self.maximal_steps,
                self.is_strict ==> steps == self.minimal_steps,
                current.wf(),
                current.size == board.size,
                current.live_set() == generation(size, cells, steps as nat),
                forall|t: int| t < steps ==> !#[trigger] self.solved_at(size, cells, t),
            decreases self.maximal_steps - steps,
        {
            if evaluate_all(&self.final_conditions, &current) {
                return Ok(steps);
            }
            if self.is_strict || steps == self.maximal_steps {
                return Err(VerificationError::FinalConditionsNotReached);
            }
            current = current.advance_once();
            steps += 1;
        }
    }
}

/// Checks that `board` solves `puzzle`; the same check as `Puzzle::check_solution`.
pub fn verify(puzzle: &Puzzle, board: &Board) -> (r: Result<u16, VerificationError>)
    requires
        board.wf(),
    ensures
        ({
            let cells = board.live_set();
            let size = board.size as int;
            &&& !puzzle.passes_initial(cells) ==> r == Err::<u16, VerificationError>(
                VerificationError::InitialConditionsNotMet,
            )
            &&& puzzle.passes_initial(cells) ==> match r {
                Ok(steps) => puzzle.solved_at(size, cells, steps as int) && forall|t: int|
                    t < steps ==> !#[trigger] puzzle.solved_at(size, cells, t),
                Err(e) => e == VerificationError::FinalConditionsNotReached && forall|t: int|
                    !#[trigger] puzzle.solved_at(size, cells, t),
            }
        }),
{
    puzzle.check_solution(board)
}

} // verus!
