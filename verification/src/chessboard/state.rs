//! The board's states and reactions as the contracts speak of them, and what
//! each event makes of a state.

use vstd::prelude::*;
use crate::chessboard::{DragAndDropData, Msg};
use crate::geometry::{mirrored, nearest_coordinate, square_at, Square};
use crate::outcome::Outcome;
use crate::pieces::{Color, Piece};
use crate::position::{IllegalMove, Position, Record};
use crate::promotion::promotion_choice;

verus! {

/// What the state of a board holds.
pub struct ModelView {
    pub position: Record,
    pub reversed: bool,
    pub dnd_data: Option<DragAndDropData>,
    pub game_in_progress: bool,
    pub history: Seq<(Seq<char>, bool)>,
}

/// What a reaction holds.
pub struct ReactionView {
    pub redraw: bool,
    pub pieces_size: Option<i32>,
    pub move_played: Option<(Seq<char>, bool)>,
    pub game_over: Option<Outcome>,
    pub game_started: bool,
    pub game_stopped: bool,
}

impl ReactionView {
    /// Nothing to do.
    pub open spec fn quiet() -> ReactionView {
        ReactionView {
            redraw: false,
            pieces_size: None,
            move_played: None,
            game_over: None,
            game_started: false,
            game_stopped: false,
        }
    }

    /// Only draw again.
    pub open spec fn redrawn() -> ReactionView {
        ReactionView { redraw: true, ..ReactionView::quiet() }
    }
}

/// The rank on which the pawns of a side are promoted.
pub open spec fn far_rank(color: Color) -> u8 {
    match color {
        Color::White => 7,
        Color::Black => 0,
    }
}

/// Whether releasing a dragged piece asks for a promotion choice: the piece
/// is a pawn, and it is released on a square of the rank where the pawns of
/// its colour are promoted.
pub open spec fn is_promotion_release(dragged: DragAndDropData, release: Option<Square>) -> bool {
    match release {
        Some(square) => dragged.piece == Piece::Pawn && square.rank == far_rank(dragged.color),
        None => false,
    }
}

/// Extent of a cell of a board, rounded towards zero.
pub open spec fn cell_extent(board_size: int) -> int {
    if board_size >= 0 {
        (111 * board_size) / 1000
    } else {
        -((111 * -board_size) / 1000)
    }
}

/// The piece that a promotion letter names.
pub open spec fn promoted_piece(letter: char) -> Option<Piece> {
    if letter == 'q' {
        Some(Piece::Queen)
    } else if letter == 'r' {
        Some(Piece::Rook)
    } else if letter == 'b' {
        Some(Piece::Bishop)
    } else if letter == 'n' {
        Some(Piece::Knight)
    } else {
        None
    }
}

impl DragAndDropData {
    /// Both squares of the gesture lie on the board.
    pub open spec fn valid(self) -> bool {
        self.origin.valid() && self.target.valid()
    }

    /// The gesture with the pointer elsewhere; the target follows where the
    /// pointer is over a square.
    pub open spec fn moved_to(self, x: i32, y: i32, over: Option<Square>) -> DragAndDropData {
        DragAndDropData {
            x,
            y,
            target: match over {
                Some(square) => square,
                None => self.target,
            },
            ..self
        }
    }

    /// The gesture waiting for a promotion choice on the given square.
    pub open spec fn awaiting_choice(self, square: Square) -> DragAndDropData {
        DragAndDropData { target: square, pending_promotion: Some(self.color), ..self }
    }

    /// The gesture as it is after the rendered board was turned round: the
    /// pointer's position is mirrored through the middle of the board.
    pub open spec fn turned(self, board_size: int) -> DragAndDropData {
        DragAndDropData {
            x: nearest_coordinate(mirrored(self.x as int, board_size)) as i32,
            y: nearest_coordinate(mirrored(self.y as int, board_size)) as i32,
            ..self
        }
    }
}

impl ModelView {
    /// The same state with another gesture, or none.
    pub open spec fn with_gesture(self, dnd_data: Option<DragAndDropData>) -> ModelView {
        ModelView { dnd_data, ..self }
    }

    /// Whether a gesture waits for a promotion choice.
    pub open spec fn awaits_promotion(self) -> bool {
        match self.dnd_data {
            Some(dragged) => dragged.pending_promotion is Some,
            None => false,
        }
    }

    /// The gesture that a press on a square starts, given what stands on the
    /// square and which side is to move: none unless a game is in progress
    /// and the square holds a piece of the side to move.
    pub open spec fn drag_started(
        self,
        square: Square,
        x: i32,
        y: i32,
        occupant: Option<(Piece, Color)>,
        side: Option<Color>,
    ) -> Option<DragAndDropData> {
        match occupant {
            Some((piece, color)) => if self.game_in_progress && side == Some(color) {
                Some(
                    DragAndDropData {
                        piece,
                        color,
                        x,
                        y,
                        origin: square,
                        target: square,
                        pending_promotion: None,
                    },
                )
            } else {
                None
            },
            None => None,
        }
    }

    /// The state after a press on a square while no promotion choice is
    /// awaited.
    pub open spec fn after_press(
        self,
        square: Square,
        x: i32,
        y: i32,
        occupant: Option<(Piece, Color)>,
        side: Option<Color>,
    ) -> ModelView {
        match self.drag_started(square, x, y, occupant, side) {
            Some(dragged) => self.with_gesture(Some(dragged)),
            None => self,
        }
    }

    /// The state after a move was tried: where it was applied, the position
    /// is the one it led to, the history has gained its notation, and the
    /// game is over where there is an outcome. The gesture is gone either way.
    pub open spec fn after_settle(
        self,
        attempt: Option<(Record, Seq<char>)>,
        outcome: Option<Outcome>,
        white_player: bool,
    ) -> ModelView {
        match attempt {
            Some((next, notation)) => ModelView {
                position: next,
                reversed: self.reversed,
                dnd_data: None,
                game_in_progress: self.game_in_progress && outcome is None,
                history: self.history.push((notation, white_player)),
            },
            None => self.with_gesture(None),
        }
    }

    /// The outcome to look at after a move was tried.
    pub open spec fn outcome_after(attempt: Option<(Record, Seq<char>)>) -> Option<Outcome> {
        match attempt {
            Some((next, _)) => next.outcome(),
            None => None,
        }
    }

    /// The state after trying the move of a piece of the given colour from
    /// one square to another.
    pub open spec fn after_move(
        self,
        origin: Square,
        target: Square,
        promotion: Option<Piece>,
        mover: Color,
    ) -> ModelView {
        let attempt = self.position.try_apply(origin, target, promotion);
        self.after_settle(attempt, ModelView::outcome_after(attempt), mover == Color::White)
    }

    /// The state after a click while a promotion choice is awaited (and the
    /// same state where none is): a click on one of the buttons plays the
    /// move with the piece chosen, any other click changes nothing.
    pub open spec fn after_promotion_click(self, x: i32, y: i32, board_size: int) -> ModelView {
        match self.dnd_data {
            Some(dragged) => match dragged.pending_promotion {
                Some(mover) => match promotion_choice(
                    x as int,
                    y as int,
                    board_size,
                    mover,
                    self.reversed,
                ) {
                    Some(piece) => self.after_move(
                        dragged.origin,
                        dragged.target,
                        Some(piece),
                        dragged.color,
                    ),
                    None => self,
                },
                None => self,
            },
            None => self,
        }
    }

    /// The state after the button went down.
    pub open spec fn after_button_down(self, x: i32, y: i32, board_size: int) -> ModelView {
        if self.awaits_promotion() {
            self.after_promotion_click(x, y, board_size)
        } else {
            match square_at(x as int, y as int, board_size, self.reversed) {
                Some(square) => self.after_press(
                    square,
                    x,
                    y,
                    self.position.occupant_at(square),
                    self.position.side_to_move(),
                ),
                None => self,
            }
        }
    }

    /// The state after the pointer moved.
    pub open spec fn after_mouse_drag(self, x: i32, y: i32, board_size: int) -> ModelView {
        match self.dnd_data {
            Some(dragged) => if dragged.pending_promotion is Some {
                self
            } else {
                self.with_gesture(
                    Some(
                        dragged.moved_to(
                            x,
                            y,
                            square_at(x as int, y as int, board_size, self.reversed),
                        ),
                    ),
                )
            },
            None => self,
        }
    }

    /// The state after the button went up.
    pub open spec fn after_button_up(self, x: i32, y: i32, board_size: int) -> ModelView {
        match self.dnd_data {
            Some(dragged) => if dragged.pending_promotion is Some {
                self
            } else {
                let release = square_at(x as int, y as int, board_size, self.reversed);
                match release {
                    Some(square) => if is_promotion_release(dragged, release) {
                        self.with_gesture(Some(dragged.awaiting_choice(square)))
                    } else {
                        self.after_move(dragged.origin, square, None, dragged.color)
                    },
                    None => self.with_gesture(None),
                }
            },
            None => self,
        }
    }

    /// The state after the promotion of the dragged pawn to the piece that a
    /// letter names was asked for.
    pub open spec fn after_commit_promotion(self, piece_type: char) -> ModelView {
        match (promoted_piece(piece_type), self.dnd_data) {
            (Some(piece), Some(dragged)) => self.after_move(
                dragged.origin,
                dragged.target,
                Some(piece),
                dragged.color,
            ),
            _ => self,
        }
    }

    /// The state after the rendered board was turned round.
    pub open spec fn after_toggle(self, board_size: int) -> ModelView {
        ModelView {
            reversed: !self.reversed,
            dnd_data: match self.dnd_data {
                Some(dragged) => Some(dragged.turned(board_size)),
                None => None,
            },
            ..self
        }
    }

    /// The state after an orientation was asked for.
    pub open spec fn after_set_reversed(self, reversed: bool, board_size: int) -> ModelView {
        if reversed != self.reversed {
            self.after_toggle(board_size)
        } else {
            self
        }
    }

    /// The state after a new game was asked for.
    pub open spec fn after_start(self) -> ModelView {
        ModelView {
            position: Record::initial(),
            game_in_progress: true,
            history: Seq::empty(),
            ..self
        }
    }

    /// The state after the game was stopped.
    pub open spec fn after_stop(self) -> ModelView {
        ModelView { game_in_progress: false, dnd_data: None, ..self }
    }

    /// The state that a board starts in.
    pub open spec fn fresh() -> ModelView {
        ModelView {
            position: Record::initial(),
            reversed: false,
            dnd_data: None,
            game_in_progress: true,
            history: Seq::empty(),
        }
    }
}

impl ReactionView {
    /// What the host has to do after a move was tried.
    pub open spec fn to_settle(
        attempt: Option<(Record, Seq<char>)>,
        outcome: Option<Outcome>,
        white_player: bool,
    ) -> ReactionView {
        match attempt {
            Some((_, notation)) => ReactionView {
                move_played: Some((notation, white_player)),
                game_over: outcome,
                ..ReactionView::redrawn()
            },
            None => ReactionView::redrawn(),
        }
    }

    /// What the host has to do after the move of a piece of the given colour
    /// was tried in a position.
    pub open spec fn to_move(
        position: Record,
        origin: Square,
        target: Square,
        promotion: Option<Piece>,
        mover: Color,
    ) -> ReactionView {
        let attempt = position.try_apply(origin, target, promotion);
        ReactionView::to_settle(attempt, ModelView::outcome_after(attempt), mover == Color::White)
    }
}

impl ModelView {
    /// What the host has to do after a click while a promotion choice is
    /// awaited.
    pub open spec fn reaction_to_promotion_click(self, x: i32, y: i32, board_size: int)
        -> ReactionView {
        match self.dnd_data {
            Some(dragged) => match dragged.pending_promotion {
                Some(mover) => match promotion_choice(
                    x as int,
                    y as int,
                    board_size,
                    mover,
                    self.reversed,
                ) {
                    Some(piece) => ReactionView::to_move(
                        self.position,
                        dragged.origin,
                        dragged.target,
                        Some(piece),
                        dragged.color,
                    ),
                    None => ReactionView::quiet(),
                },
                None => ReactionView::quiet(),
            },
            None => ReactionView::quiet(),
        }
    }

    /// What the host has to do after a press on a square while no promotion
    /// choice is awaited.
    pub open spec fn reaction_to_press(
        self,
        square: Square,
        x: i32,
        y: i32,
        occupant: Option<(Piece, Color)>,
        side: Option<Color>,
    ) -> ReactionView {
        if self.drag_started(square, x, y, occupant, side) is Some {
            ReactionView::redrawn()
        } else {
            ReactionView::quiet()
        }
    }

    /// What the host has to do after the button went down.
    pub open spec fn reaction_to_button_down(self, x: i32, y: i32, board_size: int)
        -> ReactionView {
        if self.awaits_promotion() {
            self.reaction_to_promotion_click(x, y, board_size)
        } else {
            match square_at(x as int, y as int, board_size, self.reversed) {
                Some(square) => self.reaction_to_press(
                    square,
                    x,
                    y,
                    self.position.occupant_at(square),
                    self.position.side_to_move(),
                ),
                None => ReactionView::quiet(),
            }
        }
    }

    /// What the host has to do after the pointer moved.
    pub open spec fn reaction_to_mouse_drag(self) -> ReactionView {
        match self.dnd_data {
            Some(dragged) => if dragged.pending_promotion is Some {
                ReactionView::quiet()
            } else {
                ReactionView::redrawn()
            },
            None => ReactionView::quiet(),
        }
    }

    /// What the host has to do after the button went up.
    pub open spec fn reaction_to_button_up(self, x: i32, y: i32, board_size: int) -> ReactionView {
        match self.dnd_data {
            Some(dragged) => if dragged.pending_promotion is Some {
                ReactionView::quiet()
            } else {
                let release = square_at(x as int, y as int, board_size, self.reversed);
                match release {
                    Some(square) => if is_promotion_release(dragged, release) {
                        ReactionView::redrawn()
                    } else {
                        ReactionView::to_move(
                            self.position,
                            dragged.origin,
                            square,
                            None,
                            dragged.color,
                        )
                    },
                    None => ReactionView::redrawn(),
                }
            },
            None => ReactionView::quiet(),
        }
    }

    /// What the host has to do after the promotion of the dragged pawn was
    /// asked for.
    pub open spec fn reaction_to_commit_promotion(self, piece_type: char) -> ReactionView {
        match (promoted_piece(piece_type), self.dnd_data) {
            (Some(piece), Some(dragged)) => ReactionView::to_move(
                self.position,
                dragged.origin,
                dragged.target,
                Some(piece),
                dragged.color,
            ),
            _ => ReactionView::quiet(),
        }
    }

    /// The state after an event, on a board of the given extent.
    pub open spec fn after_event(self, event: Msg, board_size: int) -> ModelView {
        match event {
            Msg::Repaint => self,
            Msg::UpdatePiecesImagesSize => self,
            Msg::ToggleOrientation => self.after_toggle(board_size),
            Msg::SetReversed(reversed) => self.after_set_reversed(reversed, board_size),
            Msg::ButtonDown(at) => self.after_button_down(at.x, at.y, board_size),
            Msg::ButtonUp(at) => self.after_button_up(at.x, at.y, board_size),
            Msg::MouseMoved(at) => self.after_mouse_drag(at.x, at.y, board_size),
            Msg::GameOver(_) => self,
            Msg::StartGame => self.after_start(),
            Msg::StopGame => self.after_stop(),
        }
    }

    /// What the host has to do after an event, on a board of the given
    /// extent.
    pub open spec fn reaction_to(self, event: Msg, board_size: int) -> ReactionView {
        match event {
            Msg::Repaint => ReactionView::redrawn(),
            Msg::UpdatePiecesImagesSize => ReactionView {
                pieces_size: Some(cell_extent(board_size) as i32),
                ..ReactionView::redrawn()
            },
            Msg::ToggleOrientation => ReactionView::redrawn(),
            Msg::SetReversed(_) => ReactionView::redrawn(),
            Msg::ButtonDown(at) => self.reaction_to_button_down(at.x, at.y, board_size),
            Msg::ButtonUp(at) => self.reaction_to_button_up(at.x, at.y, board_size),
            Msg::MouseMoved(_) => self.reaction_to_mouse_drag(),
            Msg::GameOver(_) => ReactionView::quiet(),
            Msg::StartGame => ReactionView { game_started: true, ..ReactionView::redrawn() },
            Msg::StopGame => ReactionView {
                game_stopped: self.game_in_progress,
                ..ReactionView::redrawn()
            },
        }
    }
}

/// What trying a move gave, as the contracts speak of it.
pub open spec fn attempt_view(attempt: Result<(Position, String), IllegalMove>) -> Option<
    (Record, Seq<char>),
> {
    match attempt {
        Ok((next, notation)) => Some((next@, notation@)),
        Err(_) => None,
    }
}

} // verus!
