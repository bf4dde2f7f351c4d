//! Players, the errors a move can meet, and the single cell of the grid.

use vstd::prelude::*;
use vstd::string::StringExecFns;

verus! {

/// One of the two players.
#[derive(Debug, Clone, Copy, PartialEq, Eq, Structural)]
pub enum Player {
    Player1,
    Player2,
}

/// The coordinate that a refused move had outside the grid.
#[derive(Debug, Clone, Copy, PartialEq, Eq, Structural)]
pub enum Coordinate {
    X,
    Y,
}

/// Why a move was refused. A refused move changes nothing.
#[derive(Debug, Clone, Copy, PartialEq, Eq, Structural)]
pub enum GameError {
    /// The game already has a winner.
    GameOver,
    /// The named coordinate lies outside the grid. `X` is examined first.
    OutOfBounds(Coordinate),
    /// The cell already belongs to a player.
    AlreadyOccupied,
}

impl Player {
    /// The turn index at which this player moves: 0 for the first player,
    /// 1 for the second.
    pub open spec fn index(self) -> int {
        match self {
            Player::Player1 => 0,
            Player::Player2 => 1,
        }
    }

    /// The player who moves at turn index `turn`; the first player at 0,
    /// the second at every other index.
    pub open spec fn at_turn(turn: int) -> Player {
        if turn == 0 {
            Player::Player1
        } else {
            Player::Player2
        }
    }

    /// Whether this player is the one who moves at turn index `index`.
    /// No player moves at an index above 1.
    pub fn eq_index(&self, index: u8) -> (res: bool)
        ensures
            res == (self.index() == index),
    {
        match index {
            0 => *self == Player::Player1,
            1 => *self == Player::Player2,
            _ => false,
        }
    }
}

/// The glyph that stands for a cell's occupant in text: `_` for an empty
/// cell, `X` for the first player, `O` for the second.
pub open spec fn glyph(occupant: Option<Player>) -> char {
    match occupant {
        None => '_',
        Some(Player::Player1) => 'X',
        Some(Player::Player2) => 'O',
    }
}

/// A cell of the grid. It starts empty and can be given to a player once.
pub struct Case {
    player: Option<Player>,
}

impl View for Case {
    type V = Option<Player>;

    /// The occupant of the cell, if any.
    closed spec fn view(&self) -> Option<Player> {
        self.player
    }
}

impl Case {
    /// An empty cell.
    pub fn new() -> (case: Case)
        ensures
            case@ is None,
    {
        Case { player: None }
    }

    /// Gives an empty cell to `player`. An occupied cell refuses and keeps
    /// its occupant.
    pub fn set_player(&mut self, player: Player) -> (res: Result<(), GameError>)
        ensures
            old(self)@ is Some ==> res == Err::<(), GameError>(GameError::AlreadyOccupied)
                && final(self)@ == old(self)@,
            old(self)@ is None ==> res is Ok && final(self)@ == Some(player),
        no_unwind
    {
        match self.player {
            Some(_) => Err(GameError::AlreadyOccupied),
            None => {
                self.player = Some(player);
                Ok(())
            },
        }
    }

    /// The occupant of the cell, if any.
    pub fn get_player(&self) -> (res: &Option<Player>)
        ensures
            *res == self@,
    {
        &self.player
    }

    /// The cell as text: its glyph alone.
    pub fn to_string(&self) -> (res: String)
        ensures
            res@ == seq![glyph(self@)],
    {
        proof {
            reveal_strlit("X");
            reveal_strlit("O");
            reveal_strlit("_");
        }
        match self.player {
            Some(Player::Player1) => String::from_str("X"),
            Some(Player::Player2) => String::from_str("O"),
            None => String::from_str("_"),
        }
    }
}

} // verus!
