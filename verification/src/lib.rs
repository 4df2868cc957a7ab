//! A 5x5 "four in a row" board, its rules and a memoised game-tree search.
//!
//! A board packs 25 cells of two bits each into a `u64`: cell `y * 5 + x`
//! occupies bits `2 * (y * 5 + x)` and `2 * (y * 5 + x) + 1`.

pub mod state;
pub mod cells;
pub mod board;
pub mod lines;
pub mod rules;
pub mod search;
pub mod laws;
pub mod symmetry;
pub mod held_threes;
