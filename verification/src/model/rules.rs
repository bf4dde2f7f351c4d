//! The rules as mathematics: the state of a game, the runs that win it and
//! what a submitted move does.
//!
//! A grid is a sequence of lines, `grid[x]` being line `x`, and a line is a
//! sequence of cells, `grid[x][y]` being cell `y` of line `x`. Every
//! statement here is made over the two coordinates `x` and `y`; nothing
//! depends on how a grid is drawn.
//!
//! A run is counted along an axis through a cell. Three axes are counted:
//! the one on which only `y` changes, the one on which only `x` changes,
//! and the diagonal on which both grow together. The other diagonal, on
//! which one coordinate grows as the other falls, is not counted: four
//! cells in a row along it win nothing.

use vstd::prelude::*;
use crate::model::case::{Coordinate, GameError, Player};

verus! {

/// The occupants of a grid: `grid[x][y]` is the occupant of cell `(x, y)`.
pub type Grid = Seq<Seq<Option<Player>>>;

/// A direction in which runs are counted.
#[derive(Debug, Clone, Copy, PartialEq, Eq, Structural)]
pub enum Axis {
    /// `x` fixed, `y` advancing: the cells that share their `x`.
    Column,
    /// `y` fixed, `x` advancing: the cells that share their `y`.
    Row,
    /// `x` and `y` advancing together.
    Diagonal,
}

impl Axis {
    /// The step in `x` made by one step forward along the axis.
    pub open spec fn dx(self) -> int {
        match self {
            Axis::Column => 0,
            Axis::Row => 1,
            Axis::Diagonal => 1,
        }
    }

    /// The step in `y` made by one step forward along the axis.
    pub open spec fn dy(self) -> int {
        match self {
            Axis::Column => 1,
            Axis::Row => 0,
            Axis::Diagonal => 1,
        }
    }

    /// Whether a step along the axis changes `x`.
    pub fn moves_x(self) -> (res: bool)
        ensures
            res == (self.dx() == 1),
    {
        match self {
            Axis::Column => false,
            Axis::Row => true,
            Axis::Diagonal => true,
        }
    }

    /// Whether a step along the axis changes `y`.
    pub fn moves_y(self) -> (res: bool)
        ensures
            res == (self.dy() == 1),
    {
        match self {
            Axis::Column => true,
            Axis::Row => false,
            Axis::Diagonal => true,
        }
    }
}

/// Whether `(x, y)` is a cell of the grid and belongs to `player`.
pub open spec fn owned(grid: Grid, x: int, y: int, player: Player) -> bool {
    &&& 0 <= x < grid.len()
    &&& 0 <= y < grid[x].len()
    &&& grid[x][y] == Some(player)
}

/// Whether the cell `steps` steps forward along `axis` from `(x, y)`,
/// backward where `steps` is negative, is a cell of the grid and belongs to
/// `player`.
pub open spec fn owned_at(
    grid: Grid,
    x: int,
    y: int,
    axis: Axis,
    steps: int,
    player: Player,
) -> bool {
    owned(grid, x + steps * axis.dx(), y + steps * axis.dy(), player)
}

/// The number of cells of `player` met by starting at `(x, y)` and stepping
/// forward along `axis` until a cell is outside the grid, empty or the
/// other player's. The starting cell counts.
pub open spec fn ahead(grid: Grid, x: int, y: int, axis: Axis, player: Player) -> nat
    decreases
        if axis.dx() == 1 {
            grid.len() - x
        } else {
            grid[x].len() - y
        },
{
    if owned(grid, x, y, player) {
        1 + ahead(grid, x + axis.dx(), y + axis.dy(), axis, player)
    } else {
        0
    }
}

/// The same count as [`ahead`], stepping backward along `axis`.
pub open spec fn behind(grid: Grid, x: int, y: int, axis: Axis, player: Player) -> nat
    decreases
        if axis.dx() == 1 {
            x + 1
        } else {
            y + 1
        },
{
    if owned(grid, x, y, player) {
        1 + behind(grid, x - axis.dx(), y - axis.dy(), axis, player)
    } else {
        0
    }
}

/// The length of the run of `player` through `(x, y)` along `axis`: the
/// cells from `(x, y)` forward, and those backward from the cell just
/// before it.
pub open spec fn run_length(grid: Grid, x: int, y: int, axis: Axis, player: Player) -> nat {
    ahead(grid, x, y, axis, player) + behind(
        grid,
        x - axis.dx(),
        y - axis.dy(),
        axis,
        player,
    )
}

/// Whether `player` has a run of four or more through `(x, y)` along one
/// of the three axes.
pub open spec fn four_in_a_row(grid: Grid, x: int, y: int, player: Player) -> bool {
    ||| run_length(grid, x, y, Axis::Column, player) >= 4
    ||| run_length(grid, x, y, Axis::Row, player) >= 4
    ||| run_length(grid, x, y, Axis::Diagonal, player) >= 4
}

/// Whether four cells in a line along `axis` belong to `player`: the cell
/// `(x, y)`, the `before` cells just before it and the `3 - before` cells
/// just after it.
pub open spec fn four_aligned(
    grid: Grid,
    x: int,
    y: int,
    axis: Axis,
    before: int,
    player: Player,
) -> bool {
    &&& 0 <= before < 4
    &&& forall|k: int| -before <= k < 4 - before ==> owned_at(grid, x, y, axis, k, player)
}

/// The state of a game.
pub struct BoardState {
    /// The occupant of each cell.
    pub grid: Grid,
    /// The index of the player who moves next.
    pub turn: int,
    /// The winner, once there is one.
    pub winner: Option<Player>,
}

impl BoardState {
    /// The state of a new game on `height` lines of `width` cells: every
    /// cell empty, the first player to move, no winner.
    pub open spec fn fresh(width: nat, height: nat) -> BoardState {
        BoardState {
            grid: Seq::new(height, |x: int| Seq::new(width, |y: int| None::<Player>)),
            turn: 0,
            winner: None,
        }
    }

    /// The number of lines: `x` ranges below it.
    pub open spec fn extent_x(self) -> nat {
        self.grid.len()
    }

    /// The number of cells in a line: `y` ranges below it.
    pub open spec fn extent_y(self) -> nat {
        self.grid[0].len()
    }

    /// Whether `(x, y)` is a cell of the grid.
    pub open spec fn in_bounds(self, x: int, y: int) -> bool {
        0 <= x < self.extent_x() && 0 <= y < self.extent_y()
    }

    /// What every game state satisfies: the grid is a rectangle with at
    /// least one cell, no side longer than a `u32` can count, and the turn
    /// index is 0 or 1.
    pub open spec fn wf(self) -> bool {
        &&& 1 <= self.extent_x() <= u32::MAX
        &&& 1 <= self.extent_y() <= u32::MAX
        &&& forall|x: int|
            0 <= x < self.grid.len() ==> (#[trigger] self.grid[x]).len() == self.extent_y()
        &&& (self.turn == 0 || self.turn == 1)
    }

    /// The player who moves next.
    pub open spec fn to_play(self) -> Player {
        Player::at_turn(self.turn)
    }

    /// The answer to a move at `(x, y)`. The conditions are examined in
    /// this order: a finished game, `x` outside the grid, `y` outside the
    /// grid, an occupied cell.
    pub open spec fn verdict(self, x: int, y: int) -> Result<(), GameError> {
        if self.winner is Some {
            Err(GameError::GameOver)
        } else if !(0 <= x < self.grid.len()) {
            Err(GameError::OutOfBounds(Coordinate::X))
        } else if !(0 <= y < self.grid[x].len()) {
            Err(GameError::OutOfBounds(Coordinate::Y))
        } else if self.grid[x][y] is Some {
            Err(GameError::AlreadyOccupied)
        } else {
            Ok(())
        }
    }

    /// The grid after the player to move has marked `(x, y)`.
    pub open spec fn marked(self, x: int, y: int) -> Grid {
        self.grid.update(x, self.grid[x].update(y, Some(self.to_play())))
    }

    /// The state after a move at `(x, y)` was submitted. A refused move
    /// leaves the state as it was. An accepted move marks the cell for the
    /// player to move, names that player the winner if the mark completed a
    /// run of four, and passes the turn.
    pub open spec fn next(self, x: int, y: int) -> BoardState {
        if self.verdict(x, y) is Ok {
            BoardState {
                grid: self.marked(x, y),
                turn: (self.turn + 1) % 2,
                winner: if four_in_a_row(self.marked(x, y), x, y, self.to_play()) {
                    Some(self.to_play())
                } else {
                    None
                },
            }
        } else {
            self
        }
    }

    /// The state after the moves of `moves` were submitted in order, each
    /// given as `(x, y)`.
    pub open spec fn replay(self, moves: Seq<(int, int)>) -> BoardState
        decreases moves.len(),
    {
        if moves.len() == 0 {
            self
        } else {
            self.replay(moves.drop_last()).next(moves.last().0, moves.last().1)
        }
    }

    /// The number of moves of `moves` that were accepted when submitted in
    /// order.
    pub open spec fn accepted(self, moves: Seq<(int, int)>) -> nat
        decreases moves.len(),
    {
        if moves.len() == 0 {
            0
        } else {
            let before = self.replay(moves.drop_last());
            let last: nat = if before.verdict(moves.last().0, moves.last().1) is Ok {
                1
            } else {
                0
            };
            self.accepted(moves.drop_last()) + last
        }
    }
}

} // verus!
