//! The grid as text.
//!
//! A line is written as the glyphs of its cells, one blank between
//! two neighbours, and a line break at its end. A grid is written line
//! after line, the last line of the grid first.

use vstd::prelude::*;
use crate::model::case::{glyph, Player};
use crate::model::rules::Grid;

verus! {

/// The glyphs of the cells of `line` in order, a blank between each two.
pub open spec fn joined(line: Seq<Option<Player>>) -> Seq<char>
    decreases line.len(),
{
    if line.len() == 0 {
        Seq::empty()
    } else if line.len() == 1 {
        seq![glyph(line[0])]
    } else {
        joined(line.drop_last()) + seq![' ', glyph(line.last())]
    }
}

/// One line of the grid as text, with the line break that ends it.
pub open spec fn line_text(line: Seq<Option<Player>>) -> Seq<char> {
    joined(line) + seq!['\n']
}

/// The whole grid as text: its lines from the last to the first.
pub open spec fn grid_text(grid: Grid) -> Seq<char>
    decreases grid.len(),
{
    if grid.len() == 0 {
        Seq::empty()
    } else {
        line_text(grid.last()) + grid_text(grid.drop_last())
    }
}

/// The place in the text of a grid of `height` lines of `width` cells at
/// which the glyph of cell `(x, y)` stands.
pub open spec fn glyph_index(width: nat, height: nat, x: int, y: int) -> int {
    (height - 1 - x) * (2 * width) + 2 * y
}

/// A line of at least one cell is written with its glyphs at the even
/// places, a blank after each glyph but the last, and nothing else.
pub proof fn joined_shape(line: Seq<Option<Player>>)
    requires
        line.len() >= 1,
    ensures
        joined(line).len() == 2 * line.len() - 1,
        forall|y: int| 0 <= y < line.len() ==> joined(line)[2 * y] == glyph(#[trigger] line[y]),
        forall|y: int| 0 <= y < line.len() - 1 ==> #[trigger] joined(line)[2 * y + 1] == ' ',
    decreases line.len(),
{
    if line.len() > 1 {
        let front = line.drop_last();
        joined_shape(front);
        assert forall|y: int| 0 <= y < line.len() implies joined(line)[2 * y] == glyph(
            #[trigger] line[y],
        ) by {
            if y < line.len() - 1 {
                assert(front[y] == line[y]);
            }
        }
        assert forall|y: int| 0 <= y < line.len() - 1 implies #[trigger] joined(line)[2 * y + 1]
            == ' ' by {
            if y < line.len() - 2 {
                assert(joined(front)[2 * y + 1] == ' ');
            }
        }
    }
}

/// The text of a rectangular grid has two characters for each cell: the
/// glyph of cell `(x, y)` at its place, counted from the last line of the
/// grid, and after it a blank, or a line break if the cell ends its line.
pub proof fn grid_text_shape(grid: Grid, width: nat)
    requires
        width >= 1,
        forall|x: int| 0 <= x < grid.len() ==> (#[trigger] grid[x]).len() == width,
    ensures
        grid_text(grid).len() == grid.len() * (2 * width),
        forall|x: int, y: int|
            0 <= x < grid.len() && 0 <= y < width ==> {
                let at = #[trigger] glyph_index(width, grid.len(), x, y);
                &&& 0 <= at < at + 1 < grid_text(grid).len()
                &&& grid_text(grid)[at] == glyph(grid[x][y])
                &&& grid_text(grid)[at + 1] == if y + 1 == width {
                    '\n'
                } else {
                    ' '
                }
            },
    decreases grid.len(),
{
    if grid.len() > 0 {
        let rest = grid.drop_last();
        let top = grid.last();
        let height = grid.len();
        grid_text_shape(rest, width);
        joined_shape(top);
        assert(line_text(top).len() == 2 * width);
        assert(grid_text(grid).len() == height * (2 * width)) by {
            assert((height - 1) * (2 * width) + 2 * width == height * (2 * width))
                by (nonlinear_arith);
        }
        assert forall|x: int, y: int| 0 <= x < grid.len() && 0 <= y < width implies {
            let at = #[trigger] glyph_index(width, grid.len(), x, y);
            &&& 0 <= at < at + 1 < grid_text(grid).len()
            &&& grid_text(grid)[at] == glyph(grid[x][y])
            &&& grid_text(grid)[at + 1] == if y + 1 == width {
                '\n'
            } else {
                ' '
            }
        } by {
            let at = glyph_index(width, height, x, y);
            if x == height - 1 {
                assert(at == 2 * y) by (nonlinear_arith)
                    requires
                        at == (height - 1 - x) * (2 * width) + 2 * y,
                        x == height - 1,
                ;
                assert(top[y] == grid[x][y]);
                assert(line_text(top)[at] == joined(top)[2 * y]);
                if y + 1 < width {
                    assert(line_text(top)[at + 1] == joined(top)[2 * y + 1]);
                }
            } else {
                let below = glyph_index(width, rest.len(), x, y);
                assert(at == below + 2 * width) by (nonlinear_arith)
                    requires
                        at == (height - 1 - x) * (2 * width) + 2 * y,
                        below == (height - 1 - 1 - x) * (2 * width) + 2 * y,
                ;
                assert(rest[x] == grid[x]);
                assert(grid_text(grid)[at] == grid_text(rest)[below]);
                assert(grid_text(grid)[at + 1] == grid_text(rest)[below + 1]);
            }
        }
    }
}

} // verus!
