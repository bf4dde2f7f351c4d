//! The board: the grid of cells, the turn and the winner, with the moves
//! that change them.

use vstd::prelude::*;
use vstd::string::StringExecFns;
use crate::model::case::{glyph, Case, Coordinate, GameError, Player};
use crate::model::rules::{ahead, behind, four_in_a_row, run_length, Axis, BoardState, Grid};
use crate::model::text::{grid_text, joined, line_text};

verus! {

/// The occupants of the cells of one line.
pub open spec fn line_of(cells: Seq<Case>) -> Seq<Option<Player>> {
    Seq::new(cells.len(), |y: int| cells[y]@)
}

/// The occupants of the cells of `cases`, line by line.
pub open spec fn grid_of(cases: Seq<Vec<Case>>) -> Grid {
    Seq::new(cases.len(), |x: int| line_of(cases[x]@))
}

/// Gives cell `(x, y)` of `cases` to `player` if the cell is empty, and
/// refuses if it is taken. No other cell changes, nor the length of any
/// line.
fn occupy(cases: &mut Vec<Vec<Case>>, x: usize, y: usize, player: Player) -> (res: Result<
    (),
    GameError,
>)
    requires
        x < old(cases).len(),
        y < old(cases)[x as int].len(),
    ensures
        grid_of(old(cases)@)[x as int][y as int] is Some ==> {
            &&& res == Err::<(), GameError>(GameError::AlreadyOccupied)
            &&& grid_of(final(cases)@) == grid_of(old(cases)@)
        },
        grid_of(old(cases)@)[x as int][y as int] is None ==> {
            &&& res is Ok
            &&& grid_of(final(cases)@) == grid_of(old(cases)@).update(
                x as int,
                grid_of(old(cases)@)[x as int].update(y as int, Some(player)),
            )
        },
    no_unwind
{
    let res = cases[x][y].set_player(player);
    proof {
        if res is Ok {
            assert(grid_of(cases@) =~~= grid_of(old(cases)@).update(
                x as int,
                grid_of(old(cases)@)[x as int].update(y as int, Some(player)),
            ));
        } else {
            assert(grid_of(cases@) =~~= grid_of(old(cases)@));
        }
    }
    res
}

/// One line of cells as text: the glyphs with a blank between each two,
/// then a line break.
fn line_to_string(line: &Vec<Case>) -> (text: String)
    ensures
        text@ == line_text(line_of(line@)),
{
    let ghost cells = line_of(line@);
    let mut text = String::new();
    let mut y: usize = 0;
    while y < line.len()
        invariant
            y <= line.len(),
            cells == line_of(line@),
            text@ == joined(cells.take(y as int)),
        decreases line.len() - y,
    {
        if y > 0 {
            text.append(" ");
        }
        let cell = line[y].to_string();
        text.append(cell.as_str());
        proof {
            reveal_strlit(" ");
            let shown = cells.take(y + 1);
            assert(shown.drop_last() =~= cells.take(y as int));
            assert(shown.last() == line[y as int]@);
            if y > 0 {
                assert(text@ =~= joined(cells.take(y as int)) + seq![' ', glyph(shown.last())]);
            }
        }
        y += 1;
    }
    proof {
        reveal_strlit("\n");
        assert(cells.take(y as int) =~= cells);
    }
    text.append("\n");
    text
}

/// A game in progress or finished.
pub struct Board {
    cases: Vec<Vec<Case>>,
    player_turn: u8,
    winner: Option<Player>,
}

impl View for Board {
    type V = BoardState;

    closed spec fn view(&self) -> BoardState {
        BoardState {
            grid: grid_of(self.cases@),
            turn: self.player_turn as int,
            winner: self.winner,
        }
    }
}

impl Board {
    #[verifier::type_invariant]
    spec fn inv(self) -> bool {
        self@.wf()
    }

    /// A new game on `height` lines of `width` cells each: cell `(x, y)`
    /// exists for `x < height` and `y < width`. Every cell is empty, the
    /// first player moves first and nobody has won.
    pub fn new(width: u32, height: u32) -> (board: Board)
        requires
            width >= 1,
            height >= 1,
        ensures
            board@ == BoardState::fresh(width as nat, height as nat),
            board@.wf(),
    {
        let mut cases: Vec<Vec<Case>> = Vec::new();
        let mut x: u32 = 0;
        while x < height
            invariant
                x <= height,
                cases.len() == x,
                forall|i: int| 0 <= i < x ==> (#[trigger] cases[i]).len() == width,
                forall|i: int, j: int|
                    0 <= i < x && 0 <= j < width ==> (#[trigger] cases[i][j])@ is None,
            decreases height - x,
        {
            let mut line: Vec<Case> = Vec::new();
            let mut y: u32 = 0;
            while y < width
                invariant
                    y <= width,
                    line.len() == y,
                    forall|j: int| 0 <= j < y ==> (#[trigger] line[j])@ is None,
                decreases width - y,
            {
                line.push(Case::new());
                y += 1;
            }
            cases.push(line);
            x += 1;
        }
        assert(grid_of(cases@) =~~= BoardState::fresh(width as nat, height as nat).grid);
        Board { cases, player_turn: 0, winner: None }
    }

    /// Submits the move of the player whose turn it is at `(coord_x,
    /// coord_y)`.
    ///
    /// The move is refused when the game is over, when `coord_x` or
    /// `coord_y` lies outside the grid, or when the cell is taken; the board
    /// then stays as it was. Otherwise the cell goes to the mover, the mover
    /// wins if the cell completed a run of four, and the turn passes.
    pub fn player_plays(&mut self, coord_x: usize, coord_y: usize) -> (res: Result<(), GameError>)
        ensures
            res == old(self)@.verdict(coord_x as int, coord_y as int),
            final(self)@ == old(self)@.next(coord_x as int, coord_y as int),
            final(self)@.wf(),
    {
        proof {
            use_type_invariant(&*self);
        }
        if self.winner.is_some() {
            return Err(GameError::GameOver);
        }
        if coord_x >= self.cases.len() {
            return Err(GameError::OutOfBounds(Coordinate::X));
        }
        if coord_y >= self.cases[coord_x].len() {
            return Err(GameError::OutOfBounds(Coordinate::Y));
        }
        let mover = if self.player_turn == 0 {
            Player::Player1
        } else {
            Player::Player2
        };
        let placed = occupy(&mut self.cases, coord_x, coord_y, mover);
        if let Err(refusal) = placed {
            return Err(refusal);
        }

        self.computes_winner(coord_x, coord_y);

        self.prepare_next_turn();

        Ok(())
    }

    /// Passes the turn to the other player.
    fn prepare_next_turn(&mut self)
        ensures
            final(self)@ == (BoardState { turn: (old(self)@.turn + 1) % 2, ..old(self)@ }),
    {
        proof {
            use_type_invariant(&*self);
        }
        self.player_turn = (self.player_turn + 1) % 2;
    }

    /// The cells of the grid, line by line.
    pub fn get_cases(&self) -> (cases: &Vec<Vec<Case>>)
        ensures
            grid_of(cases@) == self@.grid,
            self@.wf(),
    {
        proof {
            use_type_invariant(self);
        }
        &self.cases
    }

    /// The length of the run of the player to move through `(coord_x,
    /// coord_y)` along `axis`.
    fn get_strike(&self, coord_x: usize, coord_y: usize, axis: Axis) -> (strike: u32)
        requires
            self@.in_bounds(coord_x as int, coord_y as int),
        ensures
            strike == run_length(self@.grid, coord_x as int, coord_y as int, axis, self@.to_play()),
    {
        proof {
            use_type_invariant(self);
        }
        let ghost grid = self@.grid;
        let ghost mover = self@.to_play();
        let ghost forward = ahead(grid, coord_x as int, coord_y as int, axis, mover);
        let ghost backward = behind(
            grid,
            coord_x as int - axis.dx(),
            coord_y as int - axis.dy(),
            axis,
            mover,
        );
        let mut strike: u32 = 0;
        let mut tmp_x: usize = coord_x;
        let mut tmp_y: usize = coord_y;

        // the cells from the given one onward
        while tmp_x < self.cases.len() && tmp_y < self.cases[tmp_x].len()
            invariant
                self@.wf(),
                grid == self@.grid,
                mover == self@.to_play(),
                coord_x <= tmp_x <= grid.len(),
                coord_y <= tmp_y <= self@.extent_y(),
                strike == if axis.dx() == 1 {
                    tmp_x - coord_x
                } else {
                    tmp_y - coord_y
                },
                strike + ahead(grid, tmp_x as int, tmp_y as int, axis, mover) == forward,
            ensures
                strike == forward,
                strike <= if axis.dx() == 1 {
                    grid.len() - coord_x
                } else {
                    self@.extent_y() - coord_y
                },
            decreases (grid.len() - tmp_x) + (self@.extent_y() - tmp_y),
        {
            let mine = match self.cases[tmp_x][tmp_y].get_player() {
                Some(player) => player.eq_index(self.player_turn),
                None => false,
            };
            if !mine {
                break;
            }
            strike += 1;
            if axis.moves_x() {
                tmp_x += 1;
            }
            if axis.moves_y() {
                tmp_y += 1;
            }
        }

        // the cells before the given one
        tmp_x = coord_x;
        tmp_y = coord_y;
        loop
            invariant
                self@.wf(),
                grid == self@.grid,
                mover == self@.to_play(),
                tmp_x <= coord_x < grid.len(),
                tmp_y <= coord_y < self@.extent_y(),
                strike - forward == if axis.dx() == 1 {
                    coord_x - tmp_x
                } else {
                    coord_y - tmp_y
                },
                forward <= if axis.dx() == 1 {
                    grid.len() - coord_x
                } else {
                    self@.extent_y() - coord_y
                },
                strike + behind(
                    grid,
                    tmp_x as int - axis.dx(),
                    tmp_y as int - axis.dy(),
                    axis,
                    mover,
                ) == forward + backward,
            ensures
                strike == forward + backward,
            decreases tmp_x + tmp_y,
        {
            if (axis.moves_x() && tmp_x == 0) || (axis.moves_y() && tmp_y == 0) {
                break;
            }
            let prev_x: usize = if axis.moves_x() {
                tmp_x - 1
            } else {
                tmp_x
            };
            let prev_y: usize = if axis.moves_y() {
                tmp_y - 1
            } else {
                tmp_y
            };
            let mine = match self.cases[prev_x][prev_y].get_player() {
                Some(player) => player.eq_index(self.player_turn),
                None => false,
            };
            if !mine {
                break;
            }
            strike += 1;
            tmp_x = prev_x;
            tmp_y = prev_y;
        }

        strike
    }

    /// Whether the player to move has four in a row through the cell along
    /// its line, with `coord_x` fixed.
    fn check_winner_column(&self, coord_x: usize, coord_y: usize) -> (won: bool)
        requires
            self@.in_bounds(coord_x as int, coord_y as int),
        ensures
            won == (run_length(
                self@.grid,
                coord_x as int,
                coord_y as int,
                Axis::Column,
                self@.to_play(),
            ) >= 4),
    {
        self.get_strike(coord_x, coord_y, Axis::Column) >= 4
    }

    /// Whether the player to move has four in a row through the cell across
    /// the lines, with `coord_y` fixed.
    fn check_winner_row(&self, coord_x: usize, coord_y: usize) -> (won: bool)
        requires
            self@.in_bounds(coord_x as int, coord_y as int),
        ensures
            won == (run_length(
                self@.grid,
                coord_x as int,
                coord_y as int,
                Axis::Row,
                self@.to_play(),
            ) >= 4),
    {
        self.get_strike(coord_x, coord_y, Axis::Row) >= 4
    }

    /// Whether the player to move has four in a row through the cell along
    /// the diagonal on which both coordinates grow.
    fn check_winner_diagonal(&self, coord_x: usize, coord_y: usize) -> (won: bool)
        requires
            self@.in_bounds(coord_x as int, coord_y as int),
        ensures
            won == (run_length(
                self@.grid,
                coord_x as int,
                coord_y as int,
                Axis::Diagonal,
                self@.to_play(),
            ) >= 4),
    {
        self.get_strike(coord_x, coord_y, Axis::Diagonal) >= 4
    }

    /// Names the player to move the winner if that player has four in a
    /// row through `(coord_x, coord_y)`.
    fn computes_winner(&mut self, coord_x: usize, coord_y: usize)
        requires
            old(self)@.in_bounds(coord_x as int, coord_y as int),
        ensures
            final(self)@ == (BoardState {
                winner: if four_in_a_row(
                    old(self)@.grid,
                    coord_x as int,
                    coord_y as int,
                    old(self)@.to_play(),
                ) {
                    Some(old(self)@.to_play())
                } else {
                    old(self)@.winner
                },
                ..old(self)@
            }),
    {
        proof {
            use_type_invariant(&*self);
        }
        if self.check_winner_column(coord_x, coord_y) || self.check_winner_row(coord_x, coord_y)
            || self.check_winner_diagonal(coord_x, coord_y) {
            self.winner = match self.player_turn {
                0 => Some(Player::Player1),
                1 => Some(Player::Player2),
                _ => None,
            };
        }
    }

    /// The grid as text, one line of text for each line of the grid, the
    /// last line of the grid first.
    pub fn to_string(&self) -> (text: String)
        ensures
            text@ == grid_text(self@.grid),
    {
        let ghost grid = self@.grid;
        let mut text = String::new();
        let mut x: usize = self.cases.len();
        assert(grid.take(x as int) =~= grid);
        while x > 0
            invariant
                x <= self.cases.len(),
                grid == self@.grid,
                text@ + grid_text(grid.take(x as int)) == grid_text(grid),
            decreases x,
        {
            x -= 1;
            let line = line_to_string(&self.cases[x]);
            proof {
                let rest = grid.take(x + 1);
                assert(rest.drop_last() =~= grid.take(x as int));
                assert(rest.last() == line_of(self.cases[x as int]@));
                assert((text@ + line@) + grid_text(grid.take(x as int)) =~= text@ + (line@
                    + grid_text(grid.take(x as int))));
            }
            text.append(line.as_str());
        }
        text
    }

    /// The winner of the game, if there is one.
    pub fn get_winner(&self) -> (winner: &Option<Player>)
        ensures
            *winner == self@.winner,
    {
        &self.winner
    }
}

} // verus!
