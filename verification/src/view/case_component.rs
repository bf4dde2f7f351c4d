//! How one cell is painted.

use vstd::prelude::*;
use vstd::string::StrSliceExecFns;
use crate::model::case::{glyph, Player};

verus! {

/// The paint of a cell.
#[derive(Debug, Clone, Copy, PartialEq, Eq, Structural)]
pub enum Paint {
    /// An empty cell.
    Plain,
    /// A cell of the first player.
    Red,
    /// A cell of the second player.
    Yellow,
}

/// The paint for the cell that `text` stands for: plain for `_`, red for
/// `X`, yellow for `O`, and none for any other text.
pub open spec fn paint_of(text: Seq<char>) -> Option<Paint> {
    if text == seq!['_'] {
        Some(Paint::Plain)
    } else if text == seq!['X'] {
        Some(Paint::Red)
    } else if text == seq!['O'] {
        Some(Paint::Yellow)
    } else {
        None
    }
}

/// The paint for a cell given as text, or `None` if the text is not the
/// glyph of a cell: the host then shows an error mark.
pub fn paint(player: &str) -> (res: Option<Paint>)
    ensures
        res == paint_of(player@),
{
    if player.unicode_len() != 1 {
        return None;
    }
    let first = player.get_char(0);
    assert(player@ =~= seq![first]);
    if first == '_' {
        Some(Paint::Plain)
    } else if first == 'X' {
        Some(Paint::Red)
    } else if first == 'O' {
        Some(Paint::Yellow)
    } else {
        None
    }
}

/// The glyph of every cell has a paint, and each occupant its own.
pub proof fn every_cell_has_paint(occupant: Option<Player>)
    ensures
        paint_of(seq![glyph(occupant)]) == Some(
            match occupant {
                None => Paint::Plain,
                Some(Player::Player1) => Paint::Red,
                Some(Player::Player2) => Paint::Yellow,
            },
        ),
{
    assert(seq![glyph(occupant)][0] == glyph(occupant));
    assert(seq!['_'][0] == '_');
    assert(seq!['X'][0] == 'X');
    assert(seq!['O'][0] == 'O');
}

} // verus!
