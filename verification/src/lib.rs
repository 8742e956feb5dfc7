//! A two-player, turn-based tic-tac-toe board with verified state
//! transitions and win detection.
//!
//! The board is a fixed 3x3 grid of cells, each empty or occupied by one of
//! two players (`true` = "X", `false` = "O"). Once a cell is set it is never
//! overwritten: later writes to an occupied cell are silently ignored.

pub mod matrix;
