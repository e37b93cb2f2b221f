//! The screen that the editor draws on.

use vstd::prelude::*;
use crate::editor::Position;

verus! {

/// The number of columns of the window, and the number of rows in which
/// it shows text.
#[derive(Clone, Copy, Debug, PartialEq, Eq, Structural)]
pub struct Size {
    pub width: u16,
    pub height: u16,
}

impl Size {
    /// The window on a screen of `columns` columns and `rows` rows: the
    /// two bottom rows of the screen are kept for the status bar and the
    /// message bar.
    pub fn on_screen(columns: u16, rows: u16) -> (size: Size)
        ensures
            size.width == columns,
            size.height == if rows > 2 {
                rows - 2
            } else {
                0
            },
    {
        Size { width: columns, height: rows.saturating_sub(2) }
    }
}

/// What a number of columns or rows counted from 0 is as a coordinate of
/// the screen, which counts from 1 in sixteen bits: one more, but not past
/// the largest `usize`, and of that the lowest sixteen bits.
pub open spec fn coordinate(n: usize) -> u16 {
    (if n < usize::MAX {
        n + 1
    } else {
        n as int
    }) as u16
}

/// The column and the row of the screen, both counted from 1, for the
/// place `position` of the window, which counts from 0.
pub fn cursor_position(position: &Position) -> (cell: (u16, u16))
    ensures
        cell.0 == coordinate(position.x),
        cell.1 == coordinate(position.y),
        position.x < u16::MAX ==> cell.0 == position.x + 1,
        position.y < u16::MAX ==> cell.1 == position.y + 1,
{
    let x = position.x.saturating_add(1);
    let y = position.y.saturating_add(1);
    (#[verifier::truncate] (x as u16), #[verifier::truncate] (y as u16))
}

} // verus!
