//! Pointer-driven interaction for a chess board: pixel-to-square mapping,
//! the drag-and-drop gesture, the promotion choice, and the bookkeeping
//! around a game played through a chess rules engine.

pub mod pieces;
pub mod geometry;
pub mod promotion;
pub mod notation;
pub mod outcome;
pub mod fen;
pub mod engine;
pub mod position;
pub mod chessboard;
pub mod history;
pub mod mainwindow;
mod text;

pub use crate::chessboard::mouse_handler::MouseHandler;
pub use crate::chessboard::{
    ChessBoard, DragAndDropData, DrawingArea, Model, MovePlayed, Msg, PointerEvent, Reaction,
};
pub use crate::geometry::Square;
pub use crate::outcome::{DrawReason, Outcome, WinReason};
pub use crate::pieces::{Color, Piece};
pub use crate::position::{IllegalMove, Position};
