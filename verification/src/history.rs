//! The list of the moves played, as it is shown: a button for each move, in
//! figurine notation, and a button with the number of each full move before
//! the first of its two moves.

use vstd::prelude::*;
use vstd::string::*;
use crate::notation::{figurine_text, san_to_fan};

verus! {

/// An event for the history.
#[derive(Debug)]
pub enum Msg {
    /// A move was played: its standard algebraic notation, and whether white
    /// played it.
    AddMoveSan(String, bool),
}

/// State of the history.
#[derive(Clone, Copy, Debug, PartialEq, Eq, Structural)]
pub struct Model {
    pub game_in_progress: bool,
    /// Number of the full move that is being played.
    pub move_number: u16,
}

/// A button of the history.
#[derive(Debug)]
pub enum Button {
    /// Shows the number of a full move.
    MoveNumber(u16),
    /// Shows a move.
    Move(String),
}

/// The history.
pub struct History {
    model: Model,
    buttons: Vec<Button>,
}

/// What a [`Button`] holds.
pub enum ButtonView {
    MoveNumber(u16),
    Move(Seq<char>),
}

/// What a [`History`] holds.
pub struct HistoryView {
    pub model: Model,
    pub buttons: Seq<ButtonView>,
}

impl View for Button {
    type V = ButtonView;

    open spec fn view(&self) -> ButtonView {
        match *self {
            Button::MoveNumber(number) => ButtonView::MoveNumber(number),
            Button::Move(text) => ButtonView::Move(text@),
        }
    }
}

/// What a list of buttons holds.
pub open spec fn buttons_view(buttons: Seq<Button>) -> Seq<ButtonView> {
    Seq::new(buttons.len(), |i: int| buttons[i]@)
}

/// The number after a move number; the largest number is followed by itself.
pub open spec fn next_move_number(number: u16) -> u16 {
    if number < u16::MAX {
        (number + 1) as u16
    } else {
        number
    }
}

impl HistoryView {
    /// The history before the first move: the number of the first move.
    pub open spec fn fresh() -> HistoryView {
        HistoryView {
            model: Model { game_in_progress: false, move_number: 1 },
            buttons: seq![ButtonView::MoveNumber(1)],
        }
    }

    /// The history with one more button that shows the number of the move
    /// being played.
    pub open spec fn with_move_number(self) -> HistoryView {
        HistoryView {
            buttons: self.buttons.push(ButtonView::MoveNumber(self.model.move_number)),
            ..self
        }
    }

    /// The history with one more move, given as it is to be shown: after a
    /// move of black the next full move begins, and its number follows.
    pub open spec fn with_move(self, text: Seq<char>, white_player: bool) -> HistoryView {
        let shown = HistoryView { buttons: self.buttons.push(ButtonView::Move(text)), ..self };
        if white_player {
            shown
        } else {
            (HistoryView {
                model: Model { move_number: next_move_number(self.model.move_number), ..self.model },
                ..shown
            }).with_move_number()
        }
    }

    /// The history after an event.
    pub open spec fn after_event(self, san: Seq<char>, white_player: bool) -> HistoryView {
        self.with_move(figurine_text(san, white_player), white_player)
    }
}

impl View for History {
    type V = HistoryView;

    closed spec fn view(&self) -> HistoryView {
        HistoryView { model: self.model, buttons: buttons_view(self.buttons@) }
    }
}

impl History {
    /// The state that a history starts in.
    pub fn model() -> (model: Model)
        ensures
            model == (Model { game_in_progress: false, move_number: 1 }),
    {
        Model { game_in_progress: false, move_number: 1 }
    }

    /// A history before the first move.
    pub fn new() -> (history: History)
        ensures
            history@ == HistoryView::fresh(),
    {
        let mut history = History { model: History::model(), buttons: Vec::new() };
        assert(history@.buttons =~= Seq::empty());
        history.add_move_number();
        assert(history@.buttons =~= seq![ButtonView::MoveNumber(1)]);
        history
    }

    /// Handles an event: the move is shown in figurine notation.
    pub fn update(&mut self, event: Msg)
        ensures
            match event {
                Msg::AddMoveSan(san, white_player) => final(self)@ == old(self)@.after_event(
                    san@,
                    white_player,
                ),
            },
    {
        match event {
            Msg::AddMoveSan(san, white_player) => {
                let shown = san_to_fan(san, white_player);
                self.add_move_san(shown, white_player);
            },
        }
    }

    /// Shows one more move.
    fn add_move_san(&mut self, san: String, white_player: bool)
        ensures
            final(self)@ == old(self)@.with_move(san@, white_player),
    {
        let ghost before = self.buttons@;
        self.buttons.push(Button::Move(san));
        assert(buttons_view(self.buttons@) =~= buttons_view(before).push(ButtonView::Move(san@)));
        if !white_player {
            if self.model.move_number < u16::MAX {
                self.model.move_number += 1;
            }
            self.add_move_number();
        }
    }

    /// Shows the number of the move being played.
    fn add_move_number(&mut self)
        ensures
            final(self)@ == old(self)@.with_move_number(),
    {
        let ghost before = self.buttons@;
        self.buttons.push(Button::MoveNumber(self.model.move_number));
        assert(buttons_view(self.buttons@) =~= buttons_view(before).push(
            ButtonView::MoveNumber(self.model.move_number),
        ));
    }

    /// The buttons of the history, in order.
    pub fn buttons(&self) -> (buttons: &Vec<Button>)
        ensures
            buttons_view(buttons@) == self@.buttons,
    {
        &self.buttons
    }

    /// Number of the full move that is being played.
    pub fn move_number(&self) -> (number: u16)
        ensures
            number == self@.model.move_number,
    {
        self.model.move_number
    }
}

} // verus!
