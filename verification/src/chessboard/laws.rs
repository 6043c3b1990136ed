//! What holds of the board's reactions to the pointer, whatever the position
//! and wherever the pointer is.

use vstd::prelude::*;
use crate::chessboard::{far_rank, DragAndDropData, ModelView, Msg, ReactionView};
use crate::geometry::{mirrored, nearest_coordinate, square_at, Square};
use crate::outcome::Outcome;
use crate::pieces::Piece;
use crate::position::Record;

verus! {

/// A press on an empty square, or on a square that holds a piece of the side
/// that is not to move, starts no gesture: it changes nothing.
pub proof fn lemma_press_needs_own_piece(
    state: ModelView,
    x: i32,
    y: i32,
    board_size: int,
    square: Square,
)
    requires
        !state.awaits_promotion(),
        square_at(x as int, y as int, board_size, state.reversed) == Some(square),
        match state.position.occupant_at(square) {
            Some((_, color)) => state.position.side_to_move() != Some(color),
            None => true,
        },
    ensures
        state.after_button_down(x, y, board_size) == state,
        state.reaction_to_button_down(x, y, board_size) == ReactionView::quiet(),
{
}

/// A press that starts a gesture lands on a square that holds a piece of the
/// side to move, while a game is in progress; the gesture starts and ends on
/// that square and holds that piece.
pub proof fn lemma_gesture_starts_on_own_piece(state: ModelView, x: i32, y: i32, board_size: int)
    requires
        !state.awaits_promotion(),
        state.after_button_down(x, y, board_size).dnd_data != state.dnd_data,
    ensures
        state.game_in_progress,
        square_at(x as int, y as int, board_size, state.reversed) is Some,
        ({
            let square = square_at(x as int, y as int, board_size, state.reversed)->Some_0;
            let started = state.after_button_down(x, y, board_size).dnd_data;
            &&& started is Some
            &&& started->Some_0.origin == square
            &&& started->Some_0.target == square
            &&& started->Some_0.pending_promotion is None
            &&& state.position.occupant_at(square) == Some(
                (started->Some_0.piece, started->Some_0.color),
            )
            &&& state.position.side_to_move() == Some(started->Some_0.color)
        }),
{
}

/// While a promotion choice is awaited, neither a move of the pointer nor a
/// release of the button changes anything: the target stays, and the gesture
/// stays.
pub proof fn lemma_frozen_while_promotion_pending(
    state: ModelView,
    x: i32,
    y: i32,
    board_size: int,
)
    requires
        state.awaits_promotion(),
    ensures
        state.after_mouse_drag(x, y, board_size) == state,
        state.after_button_up(x, y, board_size) == state,
        state.reaction_to_mouse_drag() == ReactionView::quiet(),
        state.reaction_to_button_up(x, y, board_size) == ReactionView::quiet(),
{
}

/// While a promotion choice is awaited, a press is a click for the promotion
/// buttons and starts no gesture: the gesture either stays as it is or is
/// dropped with the move tried.
pub proof fn lemma_press_while_promotion_pending(
    state: ModelView,
    x: i32,
    y: i32,
    board_size: int,
)
    requires
        state.awaits_promotion(),
    ensures
        state.after_button_down(x, y, board_size) == state.after_promotion_click(
            x,
            y,
            board_size,
        ),
        state.after_button_down(x, y, board_size) == state || state.after_button_down(
            x,
            y,
            board_size,
        ).dnd_data is None,
{
}

/// Releasing a dragged pawn on a square of the rank where it is promoted
/// always asks for a promotion choice by the pawn's side, whatever square it
/// was dragged from: the gesture stays, with that square as its target.
pub proof fn lemma_pawn_on_far_rank_awaits_choice(
    state: ModelView,
    dragged: DragAndDropData,
    x: i32,
    y: i32,
    board_size: int,
    square: Square,
)
    requires
        state.dnd_data == Some(dragged),
        dragged.pending_promotion is None,
        dragged.piece == Piece::Pawn,
        square_at(x as int, y as int, board_size, state.reversed) == Some(square),
        square.rank == far_rank(dragged.color),
    ensures
        state.after_button_up(x, y, board_size) == state.with_gesture(
            Some(dragged.awaiting_choice(square)),
        ),
        state.after_button_up(x, y, board_size).dnd_data->Some_0.pending_promotion == Some(
            dragged.color,
        ),
        state.after_button_up(x, y, board_size).dnd_data->Some_0.target == square,
        state.after_button_up(x, y, board_size).dnd_data->Some_0.origin == dragged.origin,
{
}

/// Releasing any other piece, or releasing a pawn anywhere else, never asks
/// for a promotion choice: the gesture is dropped.
pub proof fn lemma_other_release_drops_gesture(
    state: ModelView,
    dragged: DragAndDropData,
    x: i32,
    y: i32,
    board_size: int,
)
    requires
        state.dnd_data == Some(dragged),
        dragged.pending_promotion is None,
        dragged.piece != Piece::Pawn || match square_at(
            x as int,
            y as int,
            board_size,
            state.reversed,
        ) {
            Some(square) => square.rank != far_rank(dragged.color),
            None => true,
        },
    ensures
        state.after_button_up(x, y, board_size).dnd_data is None,
        !state.after_button_up(x, y, board_size).awaits_promotion(),
{
}

/// A release off the board tries no move: the position and the history stay,
/// and the gesture is dropped.
pub proof fn lemma_release_off_board_cancels(
    state: ModelView,
    dragged: DragAndDropData,
    x: i32,
    y: i32,
    board_size: int,
)
    requires
        state.dnd_data == Some(dragged),
        dragged.pending_promotion is None,
        square_at(x as int, y as int, board_size, state.reversed) is None,
    ensures
        state.after_button_up(x, y, board_size) == state.with_gesture(None),
        state.reaction_to_button_up(x, y, board_size) == ReactionView::redrawn(),
{
}

/// While the pointer is off the board, moving it leaves the target of the
/// gesture where it was.
pub proof fn lemma_target_kept_off_board(
    state: ModelView,
    dragged: DragAndDropData,
    x: i32,
    y: i32,
    board_size: int,
)
    requires
        state.dnd_data == Some(dragged),
        dragged.pending_promotion is None,
        square_at(x as int, y as int, board_size, state.reversed) is None,
    ensures
        state.after_mouse_drag(x, y, board_size).dnd_data == Some(
            DragAndDropData { x, y, ..dragged },
        ),
{
}

/// Turning the rendered board round changes the orientation and, of a
/// gesture, the pointer's position and nothing else: the piece, its squares
/// and the awaited choice stay, and so do the position, the history and the
/// game. Each coordinate of the pointer becomes its mirror through the middle
/// of the board, or the nearest value that a coordinate can hold.
pub proof fn lemma_toggle_keeps_all_but_pointer(state: ModelView, board_size: int)
    ensures
        state.after_toggle(board_size).reversed == !state.reversed,
        state.after_toggle(board_size).position == state.position,
        state.after_toggle(board_size).history == state.history,
        state.after_toggle(board_size).game_in_progress == state.game_in_progress,
        state.dnd_data is None ==> state.after_toggle(board_size).dnd_data is None,
        state.dnd_data matches Some(dragged) ==> state.after_toggle(board_size).dnd_data == Some(
            DragAndDropData {
                x: nearest_coordinate(mirrored(dragged.x as int, board_size)) as i32,
                y: nearest_coordinate(mirrored(dragged.y as int, board_size)) as i32,
                ..dragged
            },
        ),
        state.after_event(Msg::ToggleOrientation, board_size) == state.after_toggle(board_size),
{
}

/// Turning the rendered board round mirrors the pointer's position of the
/// gesture through the middle of the board and leaves its squares alone;
/// turning it round again, the extent being the same, gives the state back.
/// This holds wherever the mirrored position is one that a coordinate can
/// hold.
pub proof fn lemma_toggle_mirrors_pointer(
    state: ModelView,
    dragged: DragAndDropData,
    board_size: int,
)
    requires
        state.dnd_data == Some(dragged),
        i32::MIN <= mirrored(dragged.x as int, board_size) <= i32::MAX,
        i32::MIN <= mirrored(dragged.y as int, board_size) <= i32::MAX,
    ensures
        state.after_toggle(board_size).reversed == !state.reversed,
        state.after_toggle(board_size).dnd_data == Some(
            DragAndDropData {
                x: (board_size - dragged.x) as i32,
                y: (board_size - dragged.y) as i32,
                ..dragged
            },
        ),
        state.after_toggle(board_size).after_toggle(board_size) == state,
{
}

/// Once a move has ended the game, no game is in progress and nothing is
/// dragged.
pub proof fn lemma_outcome_ends_game(
    state: ModelView,
    next: Record,
    notation: Seq<char>,
    outcome: Outcome,
    white_player: bool,
)
    ensures
        !state.after_settle(Some((next, notation)), Some(outcome), white_player).game_in_progress,
        state.after_settle(Some((next, notation)), Some(outcome), white_player).dnd_data is None,
        ReactionView::to_settle(Some((next, notation)), Some(outcome), white_player).game_over
            == Some(outcome),
{
}

/// While no game is in progress and nothing is dragged, the pointer changes
/// nothing and nothing is announced: no press starts a gesture, until a new
/// game is started.
pub proof fn lemma_no_gesture_after_game_over(state: ModelView, event: Msg, board_size: int)
    requires
        !state.game_in_progress,
        state.dnd_data is None,
        event is ButtonDown || event is ButtonUp || event is MouseMoved,
    ensures
        state.after_event(event, board_size) == state,
        state.reaction_to(event, board_size) == ReactionView::quiet(),
        state.after_start().game_in_progress,
{
}

/// Only a move that was applied adds to the history, and it adds one entry;
/// the end of a game is announced only with such a move.
pub proof fn lemma_history_grows_by_applied_moves(
    state: ModelView,
    attempt: Option<(Record, Seq<char>)>,
    outcome: Option<Outcome>,
    white_player: bool,
)
    ensures
        attempt is None ==> state.after_settle(attempt, outcome, white_player).history
            == state.history && state.after_settle(attempt, outcome, white_player).position
            == state.position,
        attempt is None ==> ReactionView::to_settle(attempt, outcome, white_player).game_over
            is None,
        attempt matches Some((next, notation)) ==> state.after_settle(
            attempt,
            outcome,
            white_player,
        ).history == state.history.push((notation, white_player)),
{
}

/// Whether the gesture of a state, if there is one, has both its squares on
/// the board.
pub open spec fn gesture_on_board(state: ModelView) -> bool {
    match state.dnd_data {
        Some(dragged) => dragged.valid(),
        None => true,
    }
}

/// No event takes the squares of the gesture off the board: what holds of the
/// board's first state holds after every event.
pub proof fn lemma_gesture_stays_on_board(state: ModelView, event: Msg, board_size: int)
    requires
        gesture_on_board(state),
    ensures
        gesture_on_board(ModelView::fresh()),
        gesture_on_board(state.after_event(event, board_size)),
{
}

/// The pointer never changes the orientation of the board.
pub proof fn lemma_pointer_keeps_orientation(state: ModelView, event: Msg, board_size: int)
    requires
        event is ButtonDown || event is ButtonUp || event is MouseMoved,
    ensures
        state.after_event(event, board_size).reversed == state.reversed,
{
}

/// The pointer changes the position only by a move that the engine applied:
/// after an event of the pointer either the position and the history are as
/// they were, or the position is what trying a move in it gave, the history
/// has gained the notation of that move, and the gesture is gone.
pub proof fn lemma_position_changes_by_moves_only(state: ModelView, event: Msg, board_size: int)
    requires
        event is ButtonDown || event is ButtonUp || event is MouseMoved,
    ensures
        ({
            let after = state.after_event(event, board_size);
            ||| after.position == state.position && after.history == state.history
            ||| exists|origin: Square, target: Square, promotion: Option<Piece>| #[trigger]
                state.position.try_apply(origin, target, promotion) matches Some(
                    (next, notation),
                ) && after.position == next && after.history.len() == state.history.len() + 1
                    && after.history.last().0 == notation && after.dnd_data is None
        }),
{
}

} // verus!
