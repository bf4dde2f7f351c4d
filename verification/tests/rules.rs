use puissance4::model::board::Board;
use puissance4::model::case::{Coordinate, GameError, Player};

/// Plays the moves in order and expects each to be accepted.
fn play_all(board: &mut Board, moves: &[(usize, usize)]) {
    for &(x, y) in moves {
        assert_eq!(board.player_plays(x, y), Ok(()), "move ({}, {})", x, y);
    }
}

#[test]
fn same_cell_twice_is_refused_as_occupied() {
    for x in 0..2 {
        for y in 0..3 {
            let mut board = Board::new(3, 2);
            assert_eq!(board.player_plays(x, y), Ok(()));
            assert_eq!(board.player_plays(x, y), Err(GameError::AlreadyOccupied));
            assert_eq!(*board.get_cases()[x][y].get_player(), Some(Player::Player1));
        }
    }
}

#[test]
fn occupied_cell_keeps_its_owner_and_the_turn() {
    let mut board = Board::new(3, 2);
    play_all(&mut board, &[(1, 1)]);
    assert_eq!(board.player_plays(1, 1), Err(GameError::AlreadyOccupied));
    assert_eq!(board.to_string(), "_ X _\n_ _ _\n");
    // the refused move did not pass the turn: the second player moves now
    play_all(&mut board, &[(0, 0)]);
    assert_eq!(board.to_string(), "_ X _\nO _ _\n");
}

#[test]
fn bounds_follow_the_lines_and_their_length() {
    // two lines of three cells: x ranges over 0..2, y over 0..3
    let mut board = Board::new(3, 2);
    assert_eq!(board.player_plays(2, 0), Err(GameError::OutOfBounds(Coordinate::X)));
    assert_eq!(board.player_plays(0, 3), Err(GameError::OutOfBounds(Coordinate::Y)));
    assert_eq!(board.player_plays(1, 2), Ok(()));
    assert_eq!(board.to_string(), "_ _ X\n_ _ _\n");
}

#[test]
fn x_is_examined_before_y() {
    let mut board = Board::new(3, 2);
    assert_eq!(board.player_plays(2, 3), Err(GameError::OutOfBounds(Coordinate::X)));
    assert_eq!(board.player_plays(usize::MAX, usize::MAX), Err(GameError::OutOfBounds(Coordinate::X)));
    assert_eq!(board.player_plays(1, usize::MAX), Err(GameError::OutOfBounds(Coordinate::Y)));
}

#[test]
fn refused_moves_change_nothing() {
    let mut board = Board::new(3, 2);
    play_all(&mut board, &[(0, 0)]);
    let before = board.to_string();
    assert!(board.player_plays(5, 0).is_err());
    assert!(board.player_plays(0, 5).is_err());
    assert!(board.player_plays(0, 0).is_err());
    assert_eq!(board.to_string(), before);
    assert_eq!(*board.get_winner(), None);
    // still the second player's turn
    play_all(&mut board, &[(0, 1)]);
    assert_eq!(board.to_string(), "_ _ _\nX O _\n");
}

#[test]
fn players_alternate_after_each_accepted_move() {
    let mut board = Board::new(6, 1);
    let mut expected = [None; 6];
    for n in 0..6 {
        play_all(&mut board, &[(0, n)]);
        expected[n] = Some(if n % 2 == 0 { Player::Player1 } else { Player::Player2 });
        for y in 0..6 {
            assert_eq!(*board.get_cases()[0][y].get_player(), expected[y]);
        }
    }
    assert_eq!(board.to_string(), "X O X O X O\n");
    assert_eq!(*board.get_winner(), None);
}

#[test]
fn finished_game_refuses_every_move() {
    let mut board = Board::new(4, 4);
    play_all(&mut board, &[(0, 0), (0, 1), (1, 0), (1, 1), (2, 0), (2, 1), (3, 0)]);
    assert_eq!(*board.get_winner(), Some(Player::Player1));
    let before = board.to_string();
    for x in 0..6 {
        for y in 0..6 {
            assert_eq!(board.player_plays(x, y), Err(GameError::GameOver));
        }
    }
    assert_eq!(board.to_string(), before);
    assert_eq!(*board.get_winner(), Some(Player::Player1));
}

#[test]
fn finished_game_answers_game_over_outside_the_grid_too() {
    let mut board = Board::new(4, 4);
    play_all(&mut board, &[(0, 0), (0, 1), (1, 0), (1, 1), (2, 0), (2, 1), (3, 0)]);
    assert_eq!(board.player_plays(9, 9), Err(GameError::GameOver));
    assert_eq!(board.player_plays(0, 0), Err(GameError::GameOver));
}

/// The moves that bring the first player's marks to `firsts` in order,
/// with the second player answering on the cells of `seconds`.
fn interleave(firsts: &[(usize, usize)], seconds: &[(usize, usize)]) -> Vec<(usize, usize)> {
    let mut moves = Vec::new();
    for i in 0..firsts.len() {
        moves.push(firsts[i]);
        if i + 1 < firsts.len() {
            moves.push(seconds[i]);
        }
    }
    moves
}

/// The four cells in every order of "which is marked last": the first
/// player wins with the last mark, and not before.
fn wins_with_any_last_cell(line: [(usize, usize); 4], fillers: [(usize, usize); 3]) {
    for last in 0..4 {
        let mut firsts: Vec<(usize, usize)> = Vec::new();
        for i in 0..4 {
            if i != last {
                firsts.push(line[i]);
            }
        }
        firsts.push(line[last]);
        let moves = interleave(&firsts, &fillers);
        let mut board = Board::new(8, 8);
        play_all(&mut board, &moves[..moves.len() - 1]);
        assert_eq!(*board.get_winner(), None, "last = {}", last);
        play_all(&mut board, &moves[moves.len() - 1..]);
        assert_eq!(*board.get_winner(), Some(Player::Player1), "last = {}", last);
    }
}

#[test]
fn four_along_a_line_win_whichever_comes_last() {
    wins_with_any_last_cell([(2, 1), (2, 2), (2, 3), (2, 4)], [(7, 0), (7, 2), (7, 4)]);
}

#[test]
fn four_across_the_lines_win_whichever_comes_last() {
    wins_with_any_last_cell([(1, 3), (2, 3), (3, 3), (4, 3)], [(7, 0), (7, 2), (7, 4)]);
}

#[test]
fn four_on_the_rising_diagonal_win_whichever_comes_last() {
    wins_with_any_last_cell([(1, 2), (2, 3), (3, 4), (4, 5)], [(7, 0), (7, 2), (7, 4)]);
}

#[test]
fn four_on_the_falling_diagonal_do_not_win() {
    let mut board = Board::new(8, 8);
    let line = [(4, 1), (3, 2), (2, 3), (1, 4)];
    let moves = interleave(&line, &[(7, 0), (7, 2), (7, 4)]);
    play_all(&mut board, &moves);
    assert_eq!(*board.get_winner(), None);
    // the game goes on
    assert_eq!(board.player_plays(7, 6), Ok(()));
}

#[test]
fn three_in_a_row_do_not_win() {
    let mut board = Board::new(8, 8);
    play_all(&mut board, &[(0, 0), (5, 0), (0, 1), (5, 2), (0, 2)]);
    assert_eq!(*board.get_winner(), None);
}

#[test]
fn a_cell_of_the_other_player_breaks_the_run() {
    let mut board = Board::new(8, 1);
    // X X O X X: four marks of the first player, no four in a row
    play_all(&mut board, &[(0, 0), (0, 2), (0, 1), (0, 6), (0, 3), (0, 7), (0, 4)]);
    assert_eq!(board.to_string(), "X X O X X _ O O\n");
    assert_eq!(*board.get_winner(), None);
}

#[test]
fn an_empty_cell_breaks_the_run() {
    let mut board = Board::new(8, 2);
    // X X _ X X on line 0
    play_all(&mut board, &[(0, 0), (1, 0), (0, 1), (1, 2), (0, 3), (1, 4), (0, 4)]);
    assert_eq!(board.to_string(), "O _ O _ O _ _ _\nX X _ X X _ _ _\n");
    assert_eq!(*board.get_winner(), None);
    // the second player does not win by filling the gap
    play_all(&mut board, &[(0, 2)]);
    assert_eq!(*board.get_winner(), None);
}

#[test]
fn filling_a_gap_makes_a_run_of_five() {
    let mut board = Board::new(8, 2);
    play_all(&mut board, &[(0, 0), (1, 0), (0, 1), (1, 2), (0, 3), (1, 4), (0, 4), (1, 6), (0, 2)]);
    assert_eq!(board.to_string(), "O _ O _ O _ O _\nX X X X X _ _ _\n");
    assert_eq!(*board.get_winner(), Some(Player::Player1));
}

#[test]
fn the_win_goes_to_the_player_who_moved() {
    let mut board = Board::new(5, 5);
    // the second player completes four across the lines at y = 1
    play_all(&mut board, &[(0, 0), (0, 1), (1, 0), (1, 1), (2, 0), (2, 1), (4, 4), (3, 1)]);
    assert_eq!(*board.get_winner(), Some(Player::Player2));
    assert_eq!(board.player_plays(3, 0), Err(GameError::GameOver));
}

#[test]
fn a_run_at_the_edge_of_the_grid_wins() {
    let mut board = Board::new(4, 4);
    // the diagonal from corner to corner, the far corner last
    play_all(&mut board, &[(0, 0), (0, 1), (1, 1), (0, 2), (2, 2), (0, 3), (3, 3)]);
    assert_eq!(*board.get_winner(), Some(Player::Player1));
    let mut board = Board::new(4, 4);
    // the same diagonal, the near corner last
    play_all(&mut board, &[(3, 3), (0, 1), (2, 2), (0, 2), (1, 1), (0, 3), (0, 0)]);
    assert_eq!(*board.get_winner(), Some(Player::Player1));
}

#[test]
fn single_cell_board() {
    let mut board = Board::new(1, 1);
    assert_eq!(board.to_string(), "_\n");
    assert_eq!(board.player_plays(0, 0), Ok(()));
    assert_eq!(board.to_string(), "X\n");
    assert_eq!(*board.get_winner(), None);
    assert_eq!(board.player_plays(0, 0), Err(GameError::AlreadyOccupied));
    assert_eq!(board.player_plays(0, 1), Err(GameError::OutOfBounds(Coordinate::Y)));
    assert_eq!(board.player_plays(1, 0), Err(GameError::OutOfBounds(Coordinate::X)));
}

#[test]
fn new_board_is_empty_with_no_winner() {
    let board = Board::new(4, 3);
    let cases = board.get_cases();
    assert_eq!(cases.len(), 3);
    for line in cases.iter() {
        assert_eq!(line.len(), 4);
        for case in line.iter() {
            assert_eq!(*case.get_player(), None);
        }
    }
    assert_eq!(*board.get_winner(), None);
}

#[test]
fn text_lists_the_last_line_first() {
    let mut board = Board::new(2, 3);
    play_all(&mut board, &[(0, 0), (1, 1), (2, 0)]);
    assert_eq!(board.to_string(), "X _\n_ O\nX _\n");
    play_all(&mut board, &[(2, 1)]);
    assert_eq!(board.to_string(), "X O\n_ O\nX _\n");
}

#[test]
fn cells_agree_with_the_text() {
    let mut board = Board::new(3, 2);
    play_all(&mut board, &[(0, 2), (1, 0)]);
    let cases = board.get_cases();
    assert_eq!(*cases[0][2].get_player(), Some(Player::Player1));
    assert_eq!(*cases[1][0].get_player(), Some(Player::Player2));
    assert_eq!(*cases[0][0].get_player(), None);
    assert_eq!(board.to_string(), "O _ _\n_ _ X\n");
}
