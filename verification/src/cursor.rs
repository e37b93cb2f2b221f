//! Where a key takes the cursor, and how the window follows it.

use vstd::prelude::*;
use vstd::math::{max, min};
use crate::editor::{Key, Position};
use crate::row::cluster_count;
use crate::terminal::Size;

verus! {

/// The number of clusters of line `y`; 0 where there is no such line.
pub open spec fn line_len(lines: Seq<Seq<char>>, y: int) -> int {
    if 0 <= y < lines.len() {
        cluster_count(lines[y])
    } else {
        0
    }
}

/// Where `key` takes the cursor in `lines`, before the cursor is held to
/// the length of its line. A page is `page` lines.
pub open spec fn stepped(lines: Seq<Seq<char>>, cursor: Position, key: Key, page: int) -> Position {
    let Position { x, y } = cursor;
    match key {
        Key::Left => if x == 0 && y != 0 {
            Position { x: line_len(lines, y - 1) as usize, y: (y - 1) as usize }
        } else if x > 0 {
            Position { x: (x - 1) as usize, y }
        } else {
            cursor
        },
        Key::Right => if x < line_len(lines, y as int) {
            Position { x: (x + 1) as usize, y }
        } else if y < lines.len() {
            Position { x: 0, y: (y + 1) as usize }
        } else {
            cursor
        },
        Key::Up => Position { x, y: max(y - 1, 0) as usize },
        Key::PageUp => Position { x, y: max(y - page, 0) as usize },
        Key::Down => Position { x, y: max(y as int, min(y + 1, lines.len() as int)) as usize },
        Key::PageDown => Position { x, y: max(y as int, min(y + page, lines.len() as int)) as usize },
        _ => cursor,
    }
}

/// Whether the cursor stands behind the end of its line.
pub open spec fn overhangs(lines: Seq<Seq<char>>, cursor: Position) -> bool {
    line_len(lines, cursor.y as int) < cursor.x
}

/// The cursor, moved back to the end of its line where it stands behind it.
pub open spec fn held(lines: Seq<Seq<char>>, cursor: Position) -> Position {
    if overhangs(lines, cursor) {
        Position { x: line_len(lines, cursor.y as int) as usize, y: cursor.y }
    } else {
        cursor
    }
}

/// Where `key` takes the cursor in `lines`.
pub open spec fn moved(lines: Seq<Seq<char>>, cursor: Position, key: Key, page: int) -> Position {
    held(lines, stepped(lines, cursor, key, page))
}

/// The first line or column shown, after it has followed the cursor: it is
/// the cursor where the cursor stood in front of the window, it is moved
/// just far enough to have the cursor in the last line or column of the
/// window where the cursor stood behind the window, and else it is as it
/// was. `span` is the height or the width of the window. The sums stop at
/// the largest `usize`.
pub open spec fn scrolled(offset: int, cursor: int, span: int) -> int {
    if cursor < offset {
        cursor
    } else if cursor >= min(offset + span, usize::MAX as int) {
        min(max(cursor - span, 0) + 1, usize::MAX as int)
    } else {
        offset
    }
}

/// The offset of the window after it has followed the cursor on both axes.
pub open spec fn followed(offset: Position, cursor: Position, size: Size) -> Position {
    Position {
        x: scrolled(offset.x as int, cursor.x as int, size.width as int) as usize,
        y: scrolled(offset.y as int, cursor.y as int, size.height as int) as usize,
    }
}

/// Whether `cursor` stands in the window of `span` lines or columns that
/// starts at `offset`.
pub open spec fn shows(offset: int, cursor: int, span: int) -> bool {
    offset <= cursor < offset + span
}

/// `scrolled` for one axis.
pub fn scroll_axis(offset: usize, cursor: usize, span: usize) -> (to: usize)
    ensures
        to == scrolled(offset as int, cursor as int, span as int),
{
    if cursor < offset {
        cursor
    } else if cursor >= offset.saturating_add(span) {
        cursor.saturating_sub(span).saturating_add(1)
    } else {
        offset
    }
}

/// A window with room for the cursor shows it once it has followed it.
pub proof fn lemma_scrolled_shows(offset: int, cursor: int, span: int)
    requires
        0 <= offset <= usize::MAX,
        0 <= cursor <= usize::MAX,
        0 < span <= usize::MAX,
    ensures
        shows(scrolled(offset, cursor, span), cursor, span),
{
}

/// A window that shows the cursor stays where it is, unless the cursor
/// stands at the largest `usize`.
pub proof fn lemma_scrolled_stays(offset: int, cursor: int, span: int)
    requires
        0 <= offset <= usize::MAX,
        0 <= cursor < usize::MAX,
        shows(offset, cursor, span),
    ensures
        scrolled(offset, cursor, span) == offset,
{
}

/// Following the cursor a second time, while the cursor stays, moves
/// nothing: a window with room for the cursor is where it was after the
/// first time.
pub proof fn lemma_scrolled_twice(offset: int, cursor: int, span: int)
    requires
        0 <= offset <= usize::MAX,
        0 <= cursor <= usize::MAX,
        0 < span <= usize::MAX,
    ensures
        scrolled(scrolled(offset, cursor, span), cursor, span) == scrolled(offset, cursor, span),
{
}

/// The same for both axes at once.
pub proof fn lemma_followed_twice(offset: Position, cursor: Position, size: Size)
    requires
        size.width > 0,
        size.height > 0,
    ensures
        followed(followed(offset, cursor, size), cursor, size) == followed(offset, cursor, size),
{
    lemma_scrolled_twice(offset.x as int, cursor.x as int, size.width as int);
    lemma_scrolled_twice(offset.y as int, cursor.y as int, size.height as int);
}

/// Left from the start of a line goes to the end of the line above, and
/// right from there goes back to the start of the line. The line may be
/// the one past the last.
pub proof fn lemma_wrap_symmetry(lines: Seq<Seq<char>>, y: usize, page: int)
    requires
        0 < y <= lines.len(),
        line_len(lines, y - 1) <= usize::MAX,
    ensures
        moved(lines, Position { x: 0, y }, Key::Left, page) == (Position {
            x: line_len(lines, y - 1) as usize,
            y: (y - 1) as usize,
        }),
        moved(
            lines,
            Position { x: line_len(lines, y - 1) as usize, y: (y - 1) as usize },
            Key::Right,
            page,
        ) == (Position { x: 0, y }),
{
}

} // verus!
