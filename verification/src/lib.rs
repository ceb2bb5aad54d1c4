//! Rules engine for a tile-laying board game on a 6x6 grid.
//!
//! Two-cell dominoes ("pieces") carry pipe shapes that route signal lines
//! across the board, and players advance markers around a 24-slot perimeter
//! track. The crate owns placement validation, the edge-to-edge signal
//! traversal, the piece/rotation geometry, and atomic two-action turns with
//! rollback.

pub mod board;
pub mod game;
pub mod piece;
