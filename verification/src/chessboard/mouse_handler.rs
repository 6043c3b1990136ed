//! The handlers of the pointer's events.

use vstd::prelude::*;
use crate::chessboard::{ChessBoard, DragAndDropData, PointerEvent, Reaction};
use crate::geometry::map_to_square;
use crate::pieces::{Color, Piece};
use crate::promotion::promotion_button_at;

verus! {

/// The handlers of the pointer's events.
pub struct MouseHandler;

impl MouseHandler {
    /// The button went down. While a promotion choice is awaited the click
    /// goes to the promotion buttons. Else a press on a piece of the side to
    /// move picks it up; any other press changes nothing.
    pub fn handle_button_down(board: &mut ChessBoard, event: PointerEvent) -> (reaction: Reaction)
        ensures
            final(board)@ == old(board)@.after_button_down(
                event.x,
                event.y,
                old(board).spec_common_size(),
            ),
            reaction@ == old(board)@.reaction_to_button_down(
                event.x,
                event.y,
                old(board).spec_common_size(),
            ),
            final(board).extent() == old(board).extent(),
    {
        let pending = match board.model.dnd_data {
            Some(dragged) => dragged.pending_promotion.is_some(),
            None => false,
        };
        if pending {
            return MouseHandler::handle_promotion_button_click(board, event);
        }
        match map_to_square(event.x, event.y, board.common_size(), board.model.reversed) {
            Some(square) => {
                let occupant = board.model.position.occupant_at(square);
                let side = board.model.position.side_to_move();
                board.begin_drag(square, event, occupant, side)
            },
            None => Reaction::quiet(),
        }
    }

    /// The button went up. The dragged piece is released: a pawn released on
    /// the rank where it is promoted waits for the choice of a piece; a
    /// release off the board drops the gesture; any other release tries the
    /// move and drops the gesture. Nothing happens while nothing is dragged
    /// or a promotion choice is awaited.
    pub fn handle_button_up(board: &mut ChessBoard, event: PointerEvent) -> (reaction: Reaction)
        ensures
            final(board)@ == old(board)@.after_button_up(
                event.x,
                event.y,
                old(board).spec_common_size(),
            ),
            reaction@ == old(board)@.reaction_to_button_up(
                event.x,
                event.y,
                old(board).spec_common_size(),
            ),
            final(board).extent() == old(board).extent(),
    {
        let dragged = match board.model.dnd_data {
            Some(dragged) => dragged,
            None => {
                return Reaction::quiet();
            },
        };
        if dragged.pending_promotion.is_some() {
            return Reaction::quiet();
        }
        match map_to_square(event.x, event.y, board.common_size(), board.model.reversed) {
            Some(square) => {
                let far: u8 = match dragged.color {
                    Color::White => 7,
                    Color::Black => 0,
                };
                let is_pawn = match dragged.piece {
                    Piece::Pawn => true,
                    _ => false,
                };
                if is_pawn && square.rank == far {
                    board.model.dnd_data = Some(
                        DragAndDropData {
                            target: square,
                            pending_promotion: Some(dragged.color),
                            ..dragged
                        },
                    );
                    Reaction::redrawn()
                } else {
                    board.play(dragged.origin, square, None, dragged.color)
                }
            },
            None => {
                board.model.dnd_data = None;
                Reaction::redrawn()
            },
        }
    }

    /// The pointer moved. The dragged piece follows it, and the target
    /// follows while the pointer is over a square. Nothing happens while
    /// nothing is dragged or a promotion choice is awaited.
    pub fn handle_mouse_drag(board: &mut ChessBoard, event: PointerEvent) -> (reaction: Reaction)
        ensures
            final(board)@ == old(board)@.after_mouse_drag(
                event.x,
                event.y,
                old(board).spec_common_size(),
            ),
            reaction@ == old(board)@.reaction_to_mouse_drag(),
            final(board).extent() == old(board).extent(),
    {
        let dragged = match board.model.dnd_data {
            Some(dragged) => dragged,
            None => {
                return Reaction::quiet();
            },
        };
        if dragged.pending_promotion.is_some() {
            return Reaction::quiet();
        }
        let target = match map_to_square(
            event.x,
            event.y,
            board.common_size(),
            board.model.reversed,
        ) {
            Some(square) => square,
            None => dragged.target,
        };
        board.model.dnd_data = Some(DragAndDropData { x: event.x, y: event.y, target, ..dragged });
        Reaction::redrawn()
    }

    /// A click while a promotion choice is awaited. A click on one of the
    /// four buttons tries the move with the piece chosen and drops the
    /// gesture; any other click changes nothing, and so does a click while
    /// no choice is awaited.
    pub fn handle_promotion_button_click(board: &mut ChessBoard, event: PointerEvent) -> (reaction:
        Reaction)
        ensures
            final(board)@ == old(board)@.after_promotion_click(
                event.x,
                event.y,
                old(board).spec_common_size(),
            ),
            reaction@ == old(board)@.reaction_to_promotion_click(
                event.x,
                event.y,
                old(board).spec_common_size(),
            ),
            final(board).extent() == old(board).extent(),
    {
        let dragged = match board.model.dnd_data {
            Some(dragged) => dragged,
            None => {
                return Reaction::quiet();
            },
        };
        let mover = match dragged.pending_promotion {
            Some(mover) => mover,
            None => {
                return Reaction::quiet();
            },
        };
        match promotion_button_at(
            event.x,
            event.y,
            board.common_size(),
            mover,
            board.model.reversed,
        ) {
            Some(piece) => board.play(dragged.origin, dragged.target, Some(piece), dragged.color),
            None => Reaction::quiet(),
        }
    }
}

} // verus!
