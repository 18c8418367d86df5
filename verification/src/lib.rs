//! Core logic of an interactive chessboard widget.
//!
//! The library tracks a drag-in-progress and a pending pawn promotion,
//! maps pointer coordinates to board squares (honoring an optional board
//! flip), validates candidate moves against an external chess-rules
//! engine, and emits at most one move notification per completed move.
//! Rendering and the host event loop live outside this crate.

pub mod application;
pub mod board;
pub mod geometry;
pub mod oracle;
pub mod uci;
