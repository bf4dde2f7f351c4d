use puissance4::model::case::{Case, GameError, Player};
use puissance4::model::rules::Axis;

#[test]
fn new_case_is_empty() {
    let case = Case::new();
    assert_eq!(*case.get_player(), None);
    assert_eq!(case.to_string(), "_");
}

#[test]
fn case_is_given_once() {
    let mut case = Case::new();
    assert_eq!(case.set_player(Player::Player2), Ok(()));
    assert_eq!(*case.get_player(), Some(Player::Player2));
    assert_eq!(case.set_player(Player::Player1), Err(GameError::AlreadyOccupied));
    assert_eq!(*case.get_player(), Some(Player::Player2));
    assert_eq!(case.set_player(Player::Player2), Err(GameError::AlreadyOccupied));
    assert_eq!(*case.get_player(), Some(Player::Player2));
}

#[test]
fn case_glyphs() {
    let mut first = Case::new();
    assert_eq!(first.set_player(Player::Player1), Ok(()));
    assert_eq!(first.to_string(), "X");
    let mut second = Case::new();
    assert_eq!(second.set_player(Player::Player2), Ok(()));
    assert_eq!(second.to_string(), "O");
}

#[test]
fn player_index() {
    assert!(Player::Player1.eq_index(0));
    assert!(!Player::Player1.eq_index(1));
    assert!(!Player::Player2.eq_index(0));
    assert!(Player::Player2.eq_index(1));
    assert!(!Player::Player1.eq_index(2));
    assert!(!Player::Player2.eq_index(2));
    assert!(!Player::Player2.eq_index(255));
}

#[test]
fn players_compare_by_value() {
    assert_eq!(Player::Player1, Player::Player1);
    assert_ne!(Player::Player1, Player::Player2);
}

#[test]
fn axis_steps() {
    assert_eq!((Axis::Column.moves_x(), Axis::Column.moves_y()), (false, true));
    assert_eq!((Axis::Row.moves_x(), Axis::Row.moves_y()), (true, false));
    assert_eq!((Axis::Diagonal.moves_x(), Axis::Diagonal.moves_y()), (true, true));
}
