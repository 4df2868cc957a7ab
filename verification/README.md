# board_solver

A 5x5 "four in a row" game: the board packed into a `u64` (two bits per
cell), the rules that decide a position, and a memoised game-tree search
whose value, memo contents and position count are pinned down by the
`search` specification.

- `src/state.rs` — cell contents and outcomes.
- `src/cells.rs` — reading and writing two-bit cells of a word.
- `src/board.rs` — the board, moves, quarter turn and reflection.
- `src/lines.rs` — the line tables and bit counting.
- `src/rules.rs` — `settled` and `has_free2` with their specifications.
- `src/search.rs` — the search (`Board::eval`, `Board::solve`) over an
  `FxHashMap` memo table.
- `src/laws.rs`, `src/symmetry.rs` — properties proved across the operations.
- `app/main.rs` — the program that solves the opening position.
