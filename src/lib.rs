//! Game of Life puzzles: a bounded board and its simulation, conditions on boards, and
//! the check that a board solves a puzzle within its window of steps.

pub mod board;
pub mod catalog;
pub mod condition;
pub mod laws;
pub mod puzzle;
