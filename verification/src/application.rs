//! Host-application state around the board: the messages the widget
//! produces and the application model that consumes them.

use vstd::prelude::*;

use crate::oracle::{initial_fen, spec_initial_fen};

verus! {

/// A message of the host application: flip the board, or adopt the new
/// position a committed move produced.
#[derive(Clone, Debug, PartialEq, Eq)]
pub enum Message {
    ToggleBoardOrientation,
    UpdatePosition(String),
}

/// The builders for the messages the chessboard component will produce.
/// The host supplies `build_update_position` as a function from the
/// committed move's FEN to its own outbound message type, so the board
/// stays agnostic of that type; `B` is the builder's type, typically a
/// function pointer.
#[derive(Clone, Copy, Debug)]
pub struct MessageProducer<B> {
    pub build_update_position: B,
}

/// The host application's model: the board orientation and the current
/// position, refreshed on every committed move.
#[derive(Clone, Debug)]
pub struct App {
    pub board_reversed: bool,
    pub board_fen: String,
}

impl Default for App {
    /// A fresh application: initial position, white at the bottom.
    fn default() -> (app: Self)
        ensures
            !app.board_reversed,
            app.board_fen@ == spec_initial_fen(),
    {
        App { board_reversed: false, board_fen: initial_fen() }
    }
}

impl App {
    /// Processes one message: toggling flips the orientation and keeps
    /// the position; a position update replaces the position and keeps
    /// the orientation.
    pub fn update(&mut self, message: Message)
        ensures
            match message {
                Message::ToggleBoardOrientation => {
                    &&& final(self).board_reversed == !old(self).board_reversed
                    &&& final(self).board_fen == old(self).board_fen
                },
                Message::UpdatePosition(new_position) => {
                    &&& final(self).board_reversed == old(self).board_reversed
                    &&& final(self).board_fen == new_position
                },
            },
    {
        match message {
            Message::ToggleBoardOrientation => {
                self.board_reversed = !self.board_reversed;
            },
            Message::UpdatePosition(new_position) => {
                self.board_fen = new_position;
            },
        }
    }

    /// Wraps a committed move's FEN in the application's message type.
    pub fn build_update_position_message(new_position: String) -> (m: Message)
        ensures
            m == Message::UpdatePosition(new_position),
    {
        Message::UpdatePosition(new_position)
    }
}

} // verus!
