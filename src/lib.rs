//! A library for creating and managing a chessboard.

/// The fundamentals of the chessboard: the board itself, its squares and pieces, and the
/// rules that decide whether a requested move may be made.
pub mod board;
/// Pre-made layouts that can be used when creating a chessboard.
pub mod layouts;
