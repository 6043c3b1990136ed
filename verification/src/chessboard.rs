//! The board's interaction state and the events that change it.
//!
//! The board owns the position, the orientation, the drag-and-drop gesture in
//! progress, if any, and the history of the moves played. Every event is
//! handled at once and answered with a [`Reaction`] that tells the host what
//! to do: draw again, tell the history of a move, announce the end of the
//! game.

pub mod laws;
pub mod mouse_handler;
pub mod painter;
pub mod state;

use vstd::prelude::*;
use vstd::string::*;
use crate::chessboard::mouse_handler::MouseHandler;
pub use crate::chessboard::state::{
    attempt_view, cell_extent, far_rank, is_promotion_release, promoted_piece, ModelView,
    ReactionView,
};
use crate::geometry::{mirror_coordinate, Square};
use crate::outcome::Outcome;
use crate::pieces::{Color, Piece};
use crate::position::{IllegalMove, Position};

verus! {

/// Where the pointer was when a button went down or up or the pointer moved,
/// in the units of the board's extent and from its top left corner.
#[derive(Clone, Copy, Debug, PartialEq, Eq, Structural)]
pub struct PointerEvent {
    pub x: i32,
    pub y: i32,
}

/// An event for the board.
#[derive(Clone, Copy, Debug, PartialEq, Eq, Structural)]
pub enum Msg {
    Repaint,
    UpdatePiecesImagesSize,
    ToggleOrientation,
    SetReversed(bool),
    ButtonDown(PointerEvent),
    ButtonUp(PointerEvent),
    MouseMoved(PointerEvent),
    GameOver(Outcome),
    StartGame,
    StopGame,
}

/// A piece being dragged from one square to another.
#[derive(Clone, Copy, Debug, PartialEq, Eq, Structural)]
pub struct DragAndDropData {
    /// Kind and colour of the piece being moved.
    pub piece: Piece,
    pub color: Color,
    /// Where the pointer is.
    pub x: i32,
    pub y: i32,
    /// The square that the piece was picked up from.
    pub origin: Square,
    /// The last square of the board that the pointer was over.
    pub target: Square,
    /// Set once a pawn was released on the rank where it is promoted: the
    /// side that has to choose a piece. The gesture then waits for the choice.
    pub pending_promotion: Option<Color>,
}

/// A move that was played, as the history shows it.
#[derive(Debug)]
pub struct MovePlayed {
    pub notation: String,
    pub white_player: bool,
}

/// What the host has to do after an event.
#[derive(Debug)]
pub struct Reaction {
    /// The board has to be drawn again.
    pub redraw: bool,
    /// The images of the pieces have to be made anew, for cells of this
    /// extent.
    pub pieces_size: Option<i32>,
    /// A move was played.
    pub move_played: Option<MovePlayed>,
    /// The game is over.
    pub game_over: Option<Outcome>,
    /// A new game has started.
    pub game_started: bool,
    /// The game was stopped.
    pub game_stopped: bool,
}

/// Extent of the area that the board is drawn in.
#[derive(Clone, Copy, Debug, PartialEq, Eq, Structural)]
pub struct DrawingArea {
    pub width: i32,
    pub height: i32,
}

/// State of the board.
pub struct Model {
    position: Position,
    reversed: bool,
    dnd_data: Option<DragAndDropData>,
    game_in_progress: bool,
    history: Vec<MovePlayed>,
}

/// The board.
pub struct ChessBoard {
    model: Model,
    drawing_area: DrawingArea,
}

impl View for MovePlayed {
    type V = (Seq<char>, bool);

    open spec fn view(&self) -> (Seq<char>, bool) {
        (self.notation@, self.white_player)
    }
}

/// What a list of moves played holds.
pub open spec fn moves_view(moves: Seq<MovePlayed>) -> Seq<(Seq<char>, bool)> {
    Seq::new(moves.len(), |i: int| moves[i]@)
}

impl View for Reaction {
    type V = ReactionView;

    open spec fn view(&self) -> ReactionView {
        ReactionView {
            redraw: self.redraw,
            pieces_size: self.pieces_size,
            move_played: match self.move_played {
                Some(played) => Some(played@),
                None => None,
            },
            game_over: self.game_over,
            game_started: self.game_started,
            game_stopped: self.game_stopped,
        }
    }
}

impl Reaction {
    /// Nothing to do.
    pub fn quiet() -> (reaction: Reaction)
        ensures
            reaction@ == ReactionView::quiet(),
    {
        Reaction {
            redraw: false,
            pieces_size: None,
            move_played: None,
            game_over: None,
            game_started: false,
            game_stopped: false,
        }
    }

    /// Only draw again.
    pub fn redrawn() -> (reaction: Reaction)
        ensures
            reaction@ == ReactionView::redrawn(),
    {
        Reaction {
            redraw: true,
            pieces_size: None,
            move_played: None,
            game_over: None,
            game_started: false,
            game_stopped: false,
        }
    }
}

impl View for Model {
    type V = ModelView;

    closed spec fn view(&self) -> ModelView {
        ModelView {
            position: self.position@,
            reversed: self.reversed,
            dnd_data: self.dnd_data,
            game_in_progress: self.game_in_progress,
            history: moves_view(self.history@),
        }
    }
}

impl View for ChessBoard {
    type V = ModelView;

    closed spec fn view(&self) -> ModelView {
        self.model@
    }
}

/// Extent of a cell of a board.
fn cell_size(board_size: i32) -> (extent: i32)
    ensures
        extent == cell_extent(board_size as int),
{
    if board_size >= 0 {
        let scaled: u64 = 111 * (board_size as u64);
        (scaled / 1000) as i32
    } else {
        let scaled: u64 = 111 * ((-(board_size as i64)) as u64);
        let extent: i64 = -((scaled / 1000) as i64);
        extent as i32
    }
}

/// The piece that a promotion letter names.
fn piece_of_letter(letter: char) -> (piece: Option<Piece>)
    ensures
        piece == promoted_piece(letter),
{
    match letter {
        'q' => Some(Piece::Queen),
        'r' => Some(Piece::Rook),
        'b' => Some(Piece::Bishop),
        'n' => Some(Piece::Knight),
        _ => None,
    }
}

impl ChessBoard {
    /// Extent of the area that the board is drawn in.
    pub closed spec fn extent(&self) -> DrawingArea {
        self.drawing_area
    }

    /// Extent of the rendered board: the lesser of the width and the height
    /// of the area it is drawn in.
    pub open spec fn spec_common_size(&self) -> int {
        if self.extent().width < self.extent().height {
            self.extent().width as int
        } else {
            self.extent().height as int
        }
    }

    /// The state that a board starts in: the initial position, white at the
    /// bottom, a game in progress.
    pub fn model() -> (model: Model)
        ensures
            model@ == ModelView::fresh(),
    {
        let model = Model {
            position: Position::initial(),
            reversed: false,
            dnd_data: None,
            game_in_progress: true,
            history: Vec::new(),
        };
        assert(model@.history =~= Seq::empty());
        model
    }

    /// A board in its starting state, drawn in an area of 400 by 400.
    pub fn new() -> (board: ChessBoard)
        ensures
            board@ == ModelView::fresh(),
            board.extent() == (DrawingArea { width: 400, height: 400 }),
    {
        ChessBoard { model: ChessBoard::model(), drawing_area: DrawingArea { width: 400, height: 400 } }
    }

    /// A board on which a game goes on from the given position, white at
    /// the bottom, drawn in an area of 400 by 400.
    pub fn with_position(position: Position) -> (board: ChessBoard)
        ensures
            board@ == (ModelView { position: position@, ..ModelView::fresh() }),
            board.extent() == (DrawingArea { width: 400, height: 400 }),
    {
        let model = Model {
            position,
            reversed: false,
            dnd_data: None,
            game_in_progress: true,
            history: Vec::new(),
        };
        assert(model@.history =~= Seq::empty());
        ChessBoard { model, drawing_area: DrawingArea { width: 400, height: 400 } }
    }

    /// The position of the game.
    pub fn position(&self) -> (position: &Position)
        ensures
            position@ == self@.position,
    {
        &self.model.position
    }

    /// Whether the board is rendered with white at the top.
    pub fn reversed(&self) -> (reversed: bool)
        ensures
            reversed == self@.reversed,
    {
        self.model.reversed
    }

    /// The gesture in progress, if any.
    pub fn dnd_data(&self) -> (dnd_data: Option<DragAndDropData>)
        ensures
            dnd_data == self@.dnd_data,
    {
        self.model.dnd_data
    }

    /// Whether a game is in progress.
    pub fn game_in_progress(&self) -> (in_progress: bool)
        ensures
            in_progress == self@.game_in_progress,
    {
        self.model.game_in_progress
    }

    /// The moves played in this game, in order.
    pub fn history(&self) -> (history: &Vec<MovePlayed>)
        ensures
            moves_view(history@) == self@.history,
    {
        &self.model.history
    }

    /// Tells the board the extent of the area it is drawn in.
    pub fn resize(&mut self, width: i32, height: i32)
        ensures
            final(self)@ == old(self)@,
            final(self).extent() == (DrawingArea { width, height }),
    {
        self.drawing_area = DrawingArea { width, height };
    }

    /// Extent of the rendered board.
    pub fn common_size(&self) -> (size: i32)
        ensures
            size == self.spec_common_size(),
    {
        let width: i32 = self.drawing_area.width;
        let height: i32 = self.drawing_area.height;
        if width < height {
            width
        } else {
            height
        }
    }

    /// Handles an event.
    pub fn update(&mut self, event: Msg) -> (reaction: Reaction)
        ensures
            final(self)@ == old(self)@.after_event(event, old(self).spec_common_size()),
            reaction@ == old(self)@.reaction_to(event, old(self).spec_common_size()),
            final(self).extent() == old(self).extent(),
    {
        match event {
            Msg::Repaint => Reaction::redrawn(),
            Msg::UpdatePiecesImagesSize => {
                let new_cells_size: i32 = cell_size(self.common_size());
                let mut reaction = Reaction::redrawn();
                reaction.pieces_size = Some(new_cells_size);
                reaction
            },
            Msg::ToggleOrientation => {
                self.model.reversed = !self.model.reversed;
                self.reverse_dragged_piece_position();
                Reaction::redrawn()
            },
            Msg::SetReversed(reversed) => {
                let has_effect = reversed != self.model.reversed;
                if has_effect {
                    self.reverse_dragged_piece_position();
                }
                self.model.reversed = reversed;
                Reaction::redrawn()
            },
            Msg::ButtonDown(at) => MouseHandler::handle_button_down(self, at),
            Msg::ButtonUp(at) => MouseHandler::handle_button_up(self, at),
            Msg::MouseMoved(at) => MouseHandler::handle_mouse_drag(self, at),
            Msg::GameOver(_) => Reaction::quiet(),
            Msg::StartGame => {
                self.start_new_game();
                let mut reaction = Reaction::redrawn();
                reaction.game_started = true;
                reaction
            },
            Msg::StopGame => {
                let stopped = self.stop_game();
                let mut reaction = Reaction::redrawn();
                reaction.game_stopped = stopped;
                reaction
            },
        }
    }

    /// Starts a new game: the position is the initial one, the history is
    /// empty, and presses start gestures again.
    pub fn start_new_game(&mut self)
        ensures
            final(self)@ == old(self)@.after_start(),
            final(self).extent() == old(self).extent(),
    {
        self.model.position = Position::initial();
        self.model.history = Vec::new();
        self.model.game_in_progress = true;
        assert(self.model@.history =~= Seq::empty());
    }

    /// Stops the game: presses start no gesture any more, and a gesture in
    /// progress is dropped. Says whether a game was in progress.
    pub fn stop_game(&mut self) -> (stopped: bool)
        ensures
            final(self)@ == old(self)@.after_stop(),
            stopped == old(self)@.game_in_progress,
            final(self).extent() == old(self).extent(),
    {
        let stopped = self.model.game_in_progress;
        self.model.game_in_progress = false;
        self.model.dnd_data = None;
        stopped
    }

    /// Mirrors the pointer's position of the gesture in progress, if any,
    /// through the middle of the board.
    fn reverse_dragged_piece_position(&mut self)
        ensures
            final(self)@ == old(self)@.with_gesture(
                match old(self)@.dnd_data {
                    Some(dragged) => Some(dragged.turned(old(self).spec_common_size())),
                    None => None,
                },
            ),
            final(self).extent() == old(self).extent(),
    {
        let this_size: i32 = self.common_size();
        match self.model.dnd_data {
            Some(dragged) => {
                let new_x: i32 = mirror_coordinate(dragged.x, this_size);
                let new_y: i32 = mirror_coordinate(dragged.y, this_size);
                self.model.dnd_data = Some(DragAndDropData { x: new_x, y: new_y, ..dragged });
            },
            None => {},
        }
    }

    /// Ends the game.
    fn handle_game_termination(&mut self, outcome: &Outcome) -> (announced: Option<Outcome>)
        ensures
            final(self)@ == (ModelView { game_in_progress: false, ..old(self)@ }),
            announced == Some(*outcome),
            final(self).extent() == old(self).extent(),
    {
        self.model.game_in_progress = false;
        Some(*outcome)
    }

    /// Starts the gesture of a press on a square, given what the position
    /// holds on the square and which side is to move: a gesture starts only
    /// while a game is in progress and only on a piece of the side to move.
    pub fn begin_drag(
        &mut self,
        square: Square,
        at: PointerEvent,
        occupant: Option<(Piece, Color)>,
        side: Option<Color>,
    ) -> (reaction: Reaction)
        ensures
            final(self)@ == old(self)@.after_press(square, at.x, at.y, occupant, side),
            reaction@ == old(self)@.reaction_to_press(square, at.x, at.y, occupant, side),
            final(self).extent() == old(self).extent(),
    {
        match (occupant, side) {
            (Some((piece, color)), Some(to_move)) => {
                if self.model.game_in_progress && to_move == color {
                    self.model.dnd_data = Some(
                        DragAndDropData {
                            piece,
                            color,
                            x: at.x,
                            y: at.y,
                            origin: square,
                            target: square,
                            pending_promotion: None,
                        },
                    );
                    Reaction::redrawn()
                } else {
                    Reaction::quiet()
                }
            },
            _ => Reaction::quiet(),
        }
    }

    /// Takes in what trying a move gave, and the outcome of the game after
    /// it: an applied move becomes the position and an entry of the history,
    /// an outcome ends the game, and the gesture is dropped either way.
    pub fn settle_move(
        &mut self,
        attempt: Result<(Position, String), IllegalMove>,
        outcome: Option<Outcome>,
        white_player: bool,
    ) -> (reaction: Reaction)
        ensures
            final(self)@ == old(self)@.after_settle(
                attempt_view(attempt),
                outcome,
                white_player,
            ),
            reaction@ == ReactionView::to_settle(attempt_view(attempt), outcome, white_player),
            final(self).extent() == old(self).extent(),
    {
        self.model.dnd_data = None;
        match attempt {
            Ok((next, notation)) => {
                let mut reaction = Reaction::redrawn();
                reaction.move_played = Some(
                    MovePlayed { notation: notation.clone(), white_player },
                );
                let ghost before = self.model.history@;
                self.model.position = next;
                self.model.history.push(MovePlayed { notation, white_player });
                assert(moves_view(self.model.history@) =~= moves_view(before).push(
                    (notation@, white_player),
                ));
                match outcome {
                    Some(ending) => {
                        reaction.game_over = self.handle_game_termination(&ending);
                    },
                    None => {},
                }
                reaction
            },
            Err(_) => Reaction::redrawn(),
        }
    }

    /// Tries the move of a piece of the given colour from one square to
    /// another, and settles it.
    fn play(&mut self, origin: Square, target: Square, promotion: Option<Piece>, mover: Color) -> (reaction:
        Reaction)
        ensures
            final(self)@ == old(self)@.after_move(origin, target, promotion, mover),
            reaction@ == ReactionView::to_move(
                old(self)@.position,
                origin,
                target,
                promotion,
                mover,
            ),
            final(self).extent() == old(self).extent(),
    {
        let attempt = self.model.position.try_apply(origin, target, promotion);
        let outcome = match &attempt {
            Ok((next, _)) => next.outcome(),
            Err(_) => None,
        };
        self.settle_move(attempt, outcome, mover.is_white())
    }

    /// Promotes the dragged pawn to the piece that a letter names: one of
    /// `q`, `r`, `b` and `n`. The move of the gesture is tried with that
    /// piece, and the gesture is dropped. Any other letter changes nothing,
    /// and so does the call while nothing is dragged.
    pub fn commit_promotion(&mut self, piece_type: char) -> (reaction: Reaction)
        ensures
            final(self)@ == old(self)@.after_commit_promotion(piece_type),
            reaction@ == old(self)@.reaction_to_commit_promotion(piece_type),
            final(self).extent() == old(self).extent(),
    {
        match (piece_of_letter(piece_type), self.model.dnd_data) {
            (Some(piece), Some(dragged)) => self.play(
                dragged.origin,
                dragged.target,
                Some(piece),
                dragged.color,
            ),
            _ => Reaction::quiet(),
        }
    }
}

} // verus!
