//! The decisions of the window around the board: what to tell the player,
//! what to ask, and what to pass on to the board and to the history.

use vstd::prelude::*;
use vstd::string::*;
use crate::outcome::{DrawReason, Outcome, WinReason};
use crate::pieces::Color;

verus! {

/// An event for the window.
#[derive(Debug)]
pub enum Msg {
    Quit,
    GameOver(Outcome),
    StartGame,
    StopGame,
    GameStarted,
    GameStoppedByUser,
    MovePlayed(String, bool),
}

/// State of the window.
#[derive(Clone, Copy, Debug, PartialEq, Eq, Structural)]
pub struct Model {
    pub game_in_progress: bool,
}

/// Something to tell or to ask the player.
#[derive(Clone, Copy, Debug, PartialEq, Eq, Structural)]
pub enum Notice {
    DrawByMissingMaterial,
    DrawByStalemate,
    DrawByFiftyMoves,
    DrawBySeventyFiveMoves,
    DrawByThreeFoldRepetition,
    DrawByFiveFoldRepetition,
    DrawByUnknownReason,
    WonByCheckmate(Color),
    WonByUnknownReason(Color),
    GameInterrupted,
    StopCurrentGame,
    QuitCurrentGameAndStartNew,
}

/// What the host has to do after an event.
#[derive(Debug)]
pub enum Order {
    /// Nothing.
    Nothing,
    /// Leave the program.
    Quit,
    /// Tell the player.
    Inform(Notice),
    /// Ask the player, and stop the board's game if the answer is yes.
    ConfirmStop(Notice),
    /// Ask the player, and start a new game on the board if the answer is
    /// yes.
    ConfirmStart(Notice),
    /// Start a new game on the board.
    StartBoard,
    /// Pass a move on to the history.
    AddToHistory(String, bool),
}

/// The window.
pub struct MainWindow {
    model: Model,
}

/// What an [`Order`] holds.
pub enum OrderView {
    Nothing,
    Quit,
    Inform(Notice),
    ConfirmStop(Notice),
    ConfirmStart(Notice),
    StartBoard,
    AddToHistory(Seq<char>, bool),
}

impl View for Order {
    type V = OrderView;

    open spec fn view(&self) -> OrderView {
        match *self {
            Order::Nothing => OrderView::Nothing,
            Order::Quit => OrderView::Quit,
            Order::Inform(notice) => OrderView::Inform(notice),
            Order::ConfirmStop(notice) => OrderView::ConfirmStop(notice),
            Order::ConfirmStart(notice) => OrderView::ConfirmStart(notice),
            Order::StartBoard => OrderView::StartBoard,
            Order::AddToHistory(san, white_player) => OrderView::AddToHistory(san@, white_player),
        }
    }
}

/// What there is to say of the way a game ended.
pub open spec fn notice_of_outcome(outcome: Outcome) -> Notice {
    match outcome {
        Outcome::Draw(reason) => match reason {
            DrawReason::InsufficientMaterial => Notice::DrawByMissingMaterial,
            DrawReason::Stalemate => Notice::DrawByStalemate,
            DrawReason::Moves50 => Notice::DrawByFiftyMoves,
            DrawReason::Moves75 => Notice::DrawBySeventyFiveMoves,
            DrawReason::Repeat3 => Notice::DrawByThreeFoldRepetition,
            DrawReason::Repeat5 => Notice::DrawByFiveFoldRepetition,
            DrawReason::Other => Notice::DrawByUnknownReason,
        },
        Outcome::Win { side, reason } => match reason {
            WinReason::Checkmate => Notice::WonByCheckmate(side),
            WinReason::Other => Notice::WonByUnknownReason(side),
        },
    }
}

/// The words of a notice.
pub open spec fn notice_text(notice: Notice) -> Seq<char> {
    match notice {
        Notice::DrawByMissingMaterial => "Draw by missing material."@,
        Notice::DrawByStalemate => "Draw by stalemate."@,
        Notice::DrawByFiftyMoves => "Draw by the 50 moves rule."@,
        Notice::DrawBySeventyFiveMoves => "Draw by the 75 moves rule."@,
        Notice::DrawByThreeFoldRepetition => "Draw by three fold repetition."@,
        Notice::DrawByFiveFoldRepetition => "Draw by five fold repetition."@,
        Notice::DrawByUnknownReason => "Draw by unknown reason."@,
        Notice::WonByCheckmate(side) => match side {
            Color::White => "White won by checkmate."@,
            Color::Black => "Black won by checkmate."@,
        },
        Notice::WonByUnknownReason(side) => match side {
            Color::White => "White won by unknown reason."@,
            Color::Black => "Black won by unknown reason."@,
        },
        Notice::GameInterrupted => "Game interrupted."@,
        Notice::StopCurrentGame => "Do you want to stop current game ?"@,
        Notice::QuitCurrentGameAndStartNew =>
            "Do you want to quit current game and start a new one ?"@,
    }
}

impl Notice {
    /// What there is to say of the way a game ended.
    pub fn of_outcome(outcome: Outcome) -> (notice: Notice)
        ensures
            notice == notice_of_outcome(outcome),
    {
        match outcome {
            Outcome::Draw(reason) => match reason {
                DrawReason::InsufficientMaterial => Notice::DrawByMissingMaterial,
                DrawReason::Stalemate => Notice::DrawByStalemate,
                DrawReason::Moves50 => Notice::DrawByFiftyMoves,
                DrawReason::Moves75 => Notice::DrawBySeventyFiveMoves,
                DrawReason::Repeat3 => Notice::DrawByThreeFoldRepetition,
                DrawReason::Repeat5 => Notice::DrawByFiveFoldRepetition,
                DrawReason::Other => Notice::DrawByUnknownReason,
            },
            Outcome::Win { side, reason } => match reason {
                WinReason::Checkmate => Notice::WonByCheckmate(side),
                WinReason::Other => Notice::WonByUnknownReason(side),
            },
        }
    }

    /// The words of the notice.
    pub fn text(&self) -> (text: String)
        ensures
            text@ == notice_text(*self),
    {
        let words: &str = match self {
            Notice::DrawByMissingMaterial => "Draw by missing material.",
            Notice::DrawByStalemate => "Draw by stalemate.",
            Notice::DrawByFiftyMoves => "Draw by the 50 moves rule.",
            Notice::DrawBySeventyFiveMoves => "Draw by the 75 moves rule.",
            Notice::DrawByThreeFoldRepetition => "Draw by three fold repetition.",
            Notice::DrawByFiveFoldRepetition => "Draw by five fold repetition.",
            Notice::DrawByUnknownReason => "Draw by unknown reason.",
            Notice::WonByCheckmate(side) => match side {
                Color::White => "White won by checkmate.",
                Color::Black => "Black won by checkmate.",
            },
            Notice::WonByUnknownReason(side) => match side {
                Color::White => "White won by unknown reason.",
                Color::Black => "Black won by unknown reason.",
            },
            Notice::GameInterrupted => "Game interrupted.",
            Notice::StopCurrentGame => "Do you want to stop current game ?",
            Notice::QuitCurrentGameAndStartNew =>
                "Do you want to quit current game and start a new one ?",
        };
        String::from_str(words)
    }
}

impl Model {
    /// The state after an event.
    pub open spec fn after_event(self, event: Msg) -> Model {
        match event {
            Msg::GameOver(_) => Model { game_in_progress: false },
            Msg::GameStarted => Model { game_in_progress: true },
            Msg::GameStoppedByUser => Model { game_in_progress: false },
            _ => self,
        }
    }

    /// What the host has to do after an event.
    pub open spec fn order_for(self, event: Msg) -> OrderView {
        match event {
            Msg::Quit => OrderView::Quit,
            Msg::GameOver(outcome) => OrderView::Inform(notice_of_outcome(outcome)),
            Msg::StartGame => if self.game_in_progress {
                OrderView::ConfirmStart(Notice::QuitCurrentGameAndStartNew)
            } else {
                OrderView::StartBoard
            },
            Msg::StopGame => if self.game_in_progress {
                OrderView::ConfirmStop(Notice::StopCurrentGame)
            } else {
                OrderView::Nothing
            },
            Msg::GameStarted => OrderView::Nothing,
            Msg::GameStoppedByUser => OrderView::Inform(Notice::GameInterrupted),
            Msg::MovePlayed(san, white_player) => OrderView::AddToHistory(san@, white_player),
        }
    }
}

impl View for MainWindow {
    type V = Model;

    closed spec fn view(&self) -> Model {
        self.model
    }
}

impl MainWindow {
    /// The state that a window starts in: no game in progress.
    pub fn model() -> (model: Model)
        ensures
            model == (Model { game_in_progress: false }),
    {
        Model { game_in_progress: false }
    }

    /// A window in its starting state.
    pub fn new() -> (window: MainWindow)
        ensures
            window@ == (Model { game_in_progress: false }),
    {
        MainWindow { model: MainWindow::model() }
    }

    /// Whether the window takes a game to be in progress.
    pub fn game_in_progress(&self) -> (in_progress: bool)
        ensures
            in_progress == self@.game_in_progress,
    {
        self.model.game_in_progress
    }

    /// Handles an event.
    pub fn update(&mut self, event: Msg) -> (order: Order)
        ensures
            final(self)@ == old(self)@.after_event(event),
            order@ == old(self)@.order_for(event),
    {
        match event {
            Msg::Quit => Order::Quit,
            Msg::GameOver(outcome) => self.handle_game_termination(outcome),
            Msg::StartGame => self.purpose_start_new_game(),
            Msg::StopGame => self.show_stop_confirmation_dialog(),
            Msg::GameStarted => {
                self.model.game_in_progress = true;
                Order::Nothing
            },
            Msg::GameStoppedByUser => self.handle_game_stopped_by_user(),
            Msg::MovePlayed(san, white_player) => self.add_move_played(san, white_player),
        }
    }

    /// The game is over: the player is told how it ended.
    fn handle_game_termination(&mut self, outcome: Outcome) -> (order: Order)
        ensures
            final(self)@ == (Model { game_in_progress: false }),
            order@ == OrderView::Inform(notice_of_outcome(outcome)),
    {
        let message = Notice::of_outcome(outcome);
        self.model.game_in_progress = false;
        Order::Inform(message)
    }

    /// Stopping is asked for: the player is asked to confirm, unless no game
    /// is in progress.
    fn show_stop_confirmation_dialog(&self) -> (order: Order)
        ensures
            order@ == self@.order_for(Msg::StopGame),
    {
        if !self.model.game_in_progress {
            return Order::Nothing;
        }
        Order::ConfirmStop(Notice::StopCurrentGame)
    }

    /// The game was stopped: the player is told.
    fn handle_game_stopped_by_user(&mut self) -> (order: Order)
        ensures
            final(self)@ == (Model { game_in_progress: false }),
            order@ == OrderView::Inform(Notice::GameInterrupted),
    {
        self.model.game_in_progress = false;
        Order::Inform(Notice::GameInterrupted)
    }

    /// A new game is asked for: the player is asked to confirm while a game
    /// is in progress.
    fn purpose_start_new_game(&self) -> (order: Order)
        ensures
            order@ == self@.order_for(Msg::StartGame),
    {
        if self.model.game_in_progress {
            Order::ConfirmStart(Notice::QuitCurrentGameAndStartNew)
        } else {
            Order::StartBoard
        }
    }

    /// A move was played: it goes to the history.
    fn add_move_played(&mut self, move_played: String, white_player: bool) -> (order: Order)
        ensures
            final(self)@ == old(self)@,
            order@ == OrderView::AddToHistory(move_played@, white_player),
    {
        Order::AddToHistory(move_played, white_player)
    }
}

} // verus!
