//! What holds of every game, proved from the rules.

use vstd::prelude::*;
use crate::model::case::{Coordinate, GameError, Player};
use crate::model::rules::{
    ahead, behind, four_aligned, owned, owned_at, run_length, Axis, BoardState, Grid,
};

verus! {

/// A new game on a grid of at least one cell is well formed.
pub proof fn fresh_is_well_formed(width: nat, height: nat)
    requires
        1 <= width <= u32::MAX,
        1 <= height <= u32::MAX,
    ensures
        BoardState::fresh(width, height).wf(),
        BoardState::fresh(width, height).extent_x() == height,
        BoardState::fresh(width, height).extent_y() == width,
{
}

/// A submitted move keeps the state well formed and the grid's shape, and
/// changes no cell but the one it names. A refused move changes nothing at
/// all; an accepted one gives the cell to the player to move and passes
/// the turn. A cell that has an occupant keeps it, a winner stays the
/// winner, and a new winner is the player who moved.
pub proof fn move_changes_one_cell(s: BoardState, x: int, y: int)
    requires
        s.wf(),
    ensures
        s.next(x, y).wf(),
        s.verdict(x, y) is Err ==> s.next(x, y) == s,
        s.verdict(x, y) is Ok ==> s.next(x, y).turn == 1 - s.turn,
        s.next(x, y).extent_x() == s.extent_x(),
        s.next(x, y).extent_y() == s.extent_y(),
        forall|a: int, b: int|
            s.in_bounds(a, b) && !(a == x && b == y) ==> #[trigger] s.next(x, y).grid[a][b]
                == s.grid[a][b],
        forall|a: int, b: int|
            s.in_bounds(a, b) && s.grid[a][b] is Some ==> #[trigger] s.next(x, y).grid[a][b]
                == s.grid[a][b],
        s.verdict(x, y) is Ok ==> s.next(x, y).grid[x][y] == Some(s.to_play()),
        s.winner is Some ==> s.next(x, y).winner == s.winner,
        s.winner is None && s.next(x, y).winner is Some ==> s.next(x, y).winner == Some(
            s.to_play(),
        ),
{
}

/// On an open game, a move at an empty cell of the grid is accepted, and
/// the same move submitted again is refused: because the cell is taken,
/// or, if the first move won, because the game is over.
pub proof fn cell_is_taken_once(s: BoardState, x: int, y: int)
    requires
        s.wf(),
        s.winner is None,
        s.in_bounds(x, y),
        s.grid[x][y] is None,
    ensures
        s.verdict(x, y) is Ok,
        s.next(x, y).winner is None ==> s.next(x, y).verdict(x, y) == Err::<(), GameError>(
            GameError::AlreadyOccupied,
        ),
        s.next(x, y).winner is Some ==> s.next(x, y).verdict(x, y) == Err::<(), GameError>(
            GameError::GameOver,
        ),
{
}

/// On a new game, the first move at any cell of the grid is accepted and
/// wins nothing, and the same move submitted again is refused because the
/// cell is taken.
pub proof fn first_move_is_taken_once(width: nat, height: nat, x: int, y: int)
    requires
        1 <= width <= u32::MAX,
        1 <= height <= u32::MAX,
        0 <= x < height,
        0 <= y < width,
    ensures
        BoardState::fresh(width, height).verdict(x, y) is Ok,
        BoardState::fresh(width, height).next(x, y).winner is None,
        BoardState::fresh(width, height).next(x, y).verdict(x, y) == Err::<(), GameError>(
            GameError::AlreadyOccupied,
        ),
{
    let s = BoardState::fresh(width, height);
    let grid = s.marked(x, y);
    let mover = s.to_play();
    assert forall|axis: Axis| run_length(grid, x, y, axis, mover) == 1 by {
        assert(owned(grid, x, y, mover));
        assert(!owned(grid, x + axis.dx(), y + axis.dy(), mover));
        assert(!owned(grid, x - axis.dx(), y - axis.dy(), mover));
        assert(ahead(grid, x + axis.dx(), y + axis.dy(), axis, mover) == 0);
        assert(ahead(grid, x, y, axis, mover) == 1);
    }
}

/// On an open game, a move outside the grid is refused as out of bounds
/// and changes nothing. The coordinate named is `X` if `x` is outside,
/// else `Y`.
pub proof fn outside_is_out_of_bounds(s: BoardState, x: int, y: int)
    requires
        s.wf(),
        s.winner is None,
        !s.in_bounds(x, y),
    ensures
        s.verdict(x, y) == Err::<(), GameError>(
            GameError::OutOfBounds(
                if 0 <= x < s.extent_x() {
                    Coordinate::Y
                } else {
                    Coordinate::X
                },
            ),
        ),
        s.next(x, y) == s,
{
}

/// Whatever moves are submitted, the state stays well formed and the turn
/// index moves on by one, modulo 2, for each accepted move and for no
/// other.
pub proof fn turn_counts_accepted_moves(s: BoardState, moves: Seq<(int, int)>)
    requires
        s.wf(),
    ensures
        s.replay(moves).wf(),
        s.replay(moves).turn == (s.turn + s.accepted(moves)) % 2,
        s.replay(moves).to_play().index() == (s.turn + s.accepted(moves)) % 2,
    decreases moves.len(),
{
    if moves.len() > 0 {
        turn_counts_accepted_moves(s, moves.drop_last());
    }
}

/// From a new game, after `n` moves were accepted, refused ones between
/// them or not, the player to move is the one with index `n` modulo 2.
pub proof fn turn_alternates(width: nat, height: nat, moves: Seq<(int, int)>)
    requires
        1 <= width <= u32::MAX,
        1 <= height <= u32::MAX,
    ensures
        BoardState::fresh(width, height).replay(moves).to_play().index() == BoardState::fresh(
            width,
            height,
        ).accepted(moves) % 2,
{
    turn_counts_accepted_moves(BoardState::fresh(width, height), moves);
}

/// Once there is a winner, every move is refused because the game is
/// over, and the state stays as it is.
pub proof fn finished_game_refuses(s: BoardState, x: int, y: int)
    requires
        s.winner is Some,
    ensures
        s.verdict(x, y) == Err::<(), GameError>(GameError::GameOver),
        s.next(x, y) == s,
{
}

/// Once there is a winner, no sequence of moves changes the state: each
/// of them is refused because the game is over, and none is accepted.
pub proof fn finished_game_stays(s: BoardState, moves: Seq<(int, int)>)
    requires
        s.winner is Some,
    ensures
        s.replay(moves) == s,
        s.accepted(moves) == 0,
        forall|i: int|
            0 <= i < moves.len() ==> s.replay(#[trigger] moves.take(i)).verdict(
                moves[i].0,
                moves[i].1,
            ) == Err::<(), GameError>(GameError::GameOver),
    decreases moves.len(),
{
    if moves.len() > 0 {
        finished_game_stays(s, moves.drop_last());
        assert forall|i: int| 0 <= i < moves.len() implies s.replay(
            #[trigger] moves.take(i),
        ).verdict(moves[i].0, moves[i].1) == Err::<(), GameError>(GameError::GameOver) by {
            finished_game_stays(s, moves.take(i));
        }
    }
}

/// If the `n` cells from `(x, y)` forward along `axis` belong to `player`,
/// the count forward from `(x, y)` is at least `n`.
pub proof fn ahead_counts_owned_cells(
    grid: Grid,
    x: int,
    y: int,
    axis: Axis,
    player: Player,
    n: nat,
)
    requires
        forall|k: int| 0 <= k < n ==> owned_at(grid, x, y, axis, k, player),
    ensures
        ahead(grid, x, y, axis, player) >= n,
    decreases n,
{
    if n > 0 {
        assert(owned_at(grid, x, y, axis, 0, player));
        let next_x = x + axis.dx();
        let next_y = y + axis.dy();
        assert forall|k: int| 0 <= k < n - 1 implies owned_at(
            grid,
            next_x,
            next_y,
            axis,
            k,
            player,
        ) by {
            assert(owned_at(grid, x, y, axis, k + 1, player));
            assert((k + 1) * axis.dx() == axis.dx() + k * axis.dx()) by (nonlinear_arith);
            assert((k + 1) * axis.dy() == axis.dy() + k * axis.dy()) by (nonlinear_arith);
        }
        ahead_counts_owned_cells(grid, next_x, next_y, axis, player, (n - 1) as nat);
    }
}

/// If the `n` cells from `(x, y)` backward along `axis` belong to
/// `player`, the count backward from `(x, y)` is at least `n`.
pub proof fn behind_counts_owned_cells(
    grid: Grid,
    x: int,
    y: int,
    axis: Axis,
    player: Player,
    n: nat,
)
    requires
        forall|k: int| -(n as int) < k <= 0 ==> owned_at(grid, x, y, axis, k, player),
    ensures
        behind(grid, x, y, axis, player) >= n,
    decreases n,
{
    if n > 0 {
        assert(owned_at(grid, x, y, axis, 0, player));
        let prev_x = x - axis.dx();
        let prev_y = y - axis.dy();
        assert forall|k: int| -(n - 1) < k <= 0 implies owned_at(
            grid,
            prev_x,
            prev_y,
            axis,
            k,
            player,
        ) by {
            assert(owned_at(grid, x, y, axis, k - 1, player));
            assert((k - 1) * axis.dx() == k * axis.dx() - axis.dx()) by (nonlinear_arith);
            assert((k - 1) * axis.dy() == k * axis.dy() - axis.dy()) by (nonlinear_arith);
        }
        behind_counts_owned_cells(grid, prev_x, prev_y, axis, player, (n - 1) as nat);
    }
}

/// The cells counted forward from `(x, y)` along `axis` belong to
/// `player`, each of them.
pub proof fn ahead_cells_are_owned(grid: Grid, x: int, y: int, axis: Axis, player: Player)
    ensures
        forall|k: int|
            0 <= k < ahead(grid, x, y, axis, player) ==> owned_at(grid, x, y, axis, k, player),
    decreases ahead(grid, x, y, axis, player),
{
    if owned(grid, x, y, player) {
        let next_x = x + axis.dx();
        let next_y = y + axis.dy();
        ahead_cells_are_owned(grid, next_x, next_y, axis, player);
        assert forall|k: int| 0 <= k < ahead(grid, x, y, axis, player) implies owned_at(
            grid,
            x,
            y,
            axis,
            k,
            player,
        ) by {
            if k > 0 {
                assert(owned_at(grid, next_x, next_y, axis, k - 1, player));
                assert((k - 1) * axis.dx() == k * axis.dx() - axis.dx()) by (nonlinear_arith);
                assert((k - 1) * axis.dy() == k * axis.dy() - axis.dy()) by (nonlinear_arith);
            }
        }
    }
}

/// The cells counted backward from `(x, y)` along `axis` belong to
/// `player`, each of them.
pub proof fn behind_cells_are_owned(grid: Grid, x: int, y: int, axis: Axis, player: Player)
    ensures
        forall|k: int|
            -behind(grid, x, y, axis, player) < k <= 0 ==> owned_at(grid, x, y, axis, k, player),
    decreases behind(grid, x, y, axis, player),
{
    if owned(grid, x, y, player) {
        let prev_x = x - axis.dx();
        let prev_y = y - axis.dy();
        behind_cells_are_owned(grid, prev_x, prev_y, axis, player);
        assert forall|k: int| -behind(grid, x, y, axis, player) < k <= 0 implies owned_at(
            grid,
            x,
            y,
            axis,
            k,
            player,
        ) by {
            if k < 0 {
                assert(owned_at(grid, prev_x, prev_y, axis, k + 1, player));
                assert((k + 1) * axis.dx() == k * axis.dx() + axis.dx()) by (nonlinear_arith);
                assert((k + 1) * axis.dy() == k * axis.dy() + axis.dy()) by (nonlinear_arith);
            }
        }
    }
}

/// The run through a cell of `player` has length four or more exactly
/// when the cell is one of four cells in a line along the axis that all
/// belong to `player`.
pub proof fn run_of_four_is_four_aligned(grid: Grid, x: int, y: int, axis: Axis, player: Player)
    requires
        owned(grid, x, y, player),
    ensures
        run_length(grid, x, y, axis, player) >= 4 <==> exists|before: int|
            four_aligned(grid, x, y, axis, before, player),
{
    let prev_x = x - axis.dx();
    let prev_y = y - axis.dy();
    if run_length(grid, x, y, axis, player) >= 4 {
        let back = behind(grid, prev_x, prev_y, axis, player);
        let before: int = if back >= 3 {
            3
        } else {
            back as int
        };
        ahead_cells_are_owned(grid, x, y, axis, player);
        behind_cells_are_owned(grid, prev_x, prev_y, axis, player);
        assert forall|k: int| -before <= k < 4 - before implies owned_at(
            grid,
            x,
            y,
            axis,
            k,
            player,
        ) by {
            if k < 0 {
                assert(owned_at(grid, prev_x, prev_y, axis, k + 1, player));
                assert((k + 1) * axis.dx() == k * axis.dx() + axis.dx()) by (nonlinear_arith);
                assert((k + 1) * axis.dy() == k * axis.dy() + axis.dy()) by (nonlinear_arith);
            }
        }
        assert(four_aligned(grid, x, y, axis, before, player));
    }
    if exists|before: int| four_aligned(grid, x, y, axis, before, player) {
        let before = choose|before: int| four_aligned(grid, x, y, axis, before, player);
        ahead_counts_owned_cells(grid, x, y, axis, player, (4 - before) as nat);
        assert forall|k: int| -before < k <= 0 implies owned_at(
            grid,
            prev_x,
            prev_y,
            axis,
            k,
            player,
        ) by {
            assert(owned_at(grid, x, y, axis, k - 1, player));
            assert((k - 1) * axis.dx() == k * axis.dx() - axis.dx()) by (nonlinear_arith);
            assert((k - 1) * axis.dy() == k * axis.dy() - axis.dy()) by (nonlinear_arith);
        }
        behind_counts_owned_cells(grid, prev_x, prev_y, axis, player, before as nat);
    }
}

/// An accepted move wins exactly when it completes four cells in a line:
/// when the marked cell is one of four cells in a line along one of the
/// three axes that all belong to the mover.
pub proof fn win_is_four_aligned_cells(s: BoardState, x: int, y: int)
    requires
        s.wf(),
        s.verdict(x, y) is Ok,
    ensures
        s.next(x, y).winner is Some <==> exists|axis: Axis, before: int|
            four_aligned(s.next(x, y).grid, x, y, axis, before, s.to_play()),
        s.next(x, y).winner is Some ==> s.next(x, y).winner == Some(s.to_play()),
{
    let grid = s.next(x, y).grid;
    let mover = s.to_play();
    run_of_four_is_four_aligned(grid, x, y, Axis::Column, mover);
    run_of_four_is_four_aligned(grid, x, y, Axis::Row, mover);
    run_of_four_is_four_aligned(grid, x, y, Axis::Diagonal, mover);
    if exists|axis: Axis, before: int| four_aligned(grid, x, y, axis, before, mover) {
        let (axis, before) = choose|axis: Axis, before: int|
            four_aligned(grid, x, y, axis, before, mover);
        match axis {
            Axis::Column => {},
            Axis::Row => {},
            Axis::Diagonal => {},
        }
    }
}

/// Four cells in a row win, whichever of them is marked last. Take four
/// cells in a line along one of the three axes, `before` of them before
/// the empty cell `(x, y)` and the others after it. If the three belong to
/// the player to move, a move at `(x, y)` makes that player the winner.
pub proof fn four_aligned_cells_win(s: BoardState, x: int, y: int, axis: Axis, before: int)
    requires
        s.wf(),
        s.verdict(x, y) is Ok,
        0 <= before < 4,
        forall|k: int|
            -before <= k < 4 - before && k != 0 ==> owned_at(s.grid, x, y, axis, k, s.to_play()),
    ensures
        s.next(x, y).winner == Some(s.to_play()),
{
    let grid = s.marked(x, y);
    let mover = s.to_play();
    assert forall|k: int| -before <= k < 4 - before implies owned_at(
        grid,
        x,
        y,
        axis,
        k,
        mover,
    ) by {
        if k != 0 {
            assert(owned_at(s.grid, x, y, axis, k, mover));
        }
    }
    assert(four_aligned(s.next(x, y).grid, x, y, axis, before, mover));
    win_is_four_aligned_cells(s, x, y);
}

} // verus!
