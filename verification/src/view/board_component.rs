//! The part of the interface that owns the game.

use vstd::prelude::*;
use crate::model::board::Board;
use crate::model::case::GameError;
use crate::model::rules::BoardState;

verus! {

/// The number of lines of the grid a component plays on, and of cells in
/// each line.
pub const BOARD_SIDE: u32 = 20;

/// A click on the cell `(coord_x, coord_y)`.
pub struct Msg {
    pub coord_x: usize,
    pub coord_y: usize,
}

/// What the parent hands down: whether it asks for a restart.
#[derive(Debug, Clone, Copy, PartialEq, Eq, Structural)]
pub struct RestartProps {
    pub restart: bool,
}

/// What the host is to do once a click was handled.
#[derive(Debug, Clone, Copy, PartialEq, Eq, Structural)]
pub struct Outcome {
    /// Whether the component is to be drawn again.
    pub redraw: bool,
    /// Why the move was refused, if it was: the host tells the user.
    pub refused: Option<GameError>,
}

/// The game shown on screen.
pub struct BoardComponent {
    board: Board,
}

impl View for BoardComponent {
    type V = BoardState;

    closed spec fn view(&self) -> BoardState {
        self.board@
    }
}

impl BoardComponent {
    /// A component with a new game on the square grid.
    pub fn create() -> (component: BoardComponent)
        ensures
            component@ == BoardState::fresh(BOARD_SIDE as nat, BOARD_SIDE as nat),
            component@.wf(),
    {
        BoardComponent { board: Board::new(BOARD_SIDE, BOARD_SIDE) }
    }

    /// Handles a click: the move is submitted to the game for the player
    /// to move. The component is drawn again whether the move was accepted
    /// or refused.
    pub fn update(&mut self, msg: Msg) -> (outcome: Outcome)
        ensures
            final(self)@ == old(self)@.next(msg.coord_x as int, msg.coord_y as int),
            final(self)@.wf(),
            outcome.redraw,
            outcome.refused == match old(self)@.verdict(msg.coord_x as int, msg.coord_y as int) {
                Ok(_) => None,
                Err(refusal) => Some(refusal),
            },
    {
        let refused = match self.board.player_plays(msg.coord_x, msg.coord_y) {
            Ok(_) => None,
            Err(refusal) => Some(refusal),
        };
        Outcome { redraw: true, refused }
    }

    /// Handles a change of what the parent hands down: whatever it was and
    /// is, the game is replaced by a new one, and the component is drawn
    /// again.
    pub fn changed(&mut self, _old_props: &RestartProps) -> (redraw: bool)
        ensures
            final(self)@ == BoardState::fresh(BOARD_SIDE as nat, BOARD_SIDE as nat),
            final(self)@.wf(),
            redraw,
    {
        self.board = Board::new(BOARD_SIDE, BOARD_SIDE);
        true
    }

    /// The game, to be drawn.
    pub fn board(&self) -> (board: &Board)
        ensures
            board@ == self@,
    {
        &self.board
    }
}

} // verus!
