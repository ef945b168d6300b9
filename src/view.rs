//! The cursor, scroll and render model over one text buffer.
use vstd::prelude::*;

use vstd::view::View as _;

use crate::buffer::{lines_of, Buffer};
use crate::frame::{banner_line, frame_steps, row_separator, row_steps, row_text, steps_of, truncate, DrawOp, DrawStep};
use crate::geometry::{CursorPosition, Direction, Location, ScrollOffset, Size};
use crate::scroll::{lemma_scroll_axis_holds_cursor, scroll_axis, scroll_fires, scroll_one_axis};

verus! {

/// A viewport of `size` cells onto a buffer, with a cursor `location`.
pub struct View {
    pub location: Location,
    pub size: Size,
    pub buffer: Buffer,
    pub needs_redraw: bool,
    pub scroll_offset: ScrollOffset,
}

/// A cursor position is valid for `lines` when it names a line and a column
/// of that line (one past its last character included); over an empty
/// buffer the only valid position is the origin.
pub open spec fn location_valid(lines: Seq<Seq<char>>, loc: Location) -> bool {
    if lines.len() == 0 {
        loc.row == 0 && loc.col == 0
    } else {
        loc.row < lines.len() && loc.col <= lines[loc.row as int].len()
    }
}

/// The window `[off, off + size)` holds the cursor on every axis whose
/// extent is positive.
pub open spec fn cursor_in_window(loc: Location, off: ScrollOffset, size: Size) -> bool {
    &&& size.rows > 0 ==> off.rows <= loc.row < off.rows + size.rows
    &&& size.cols > 0 ==> off.cols <= loc.col < off.cols + size.cols
}

/// The offset after scrolling `off` so that the window holds `loc`.
pub open spec fn scrolled(loc: Location, off: ScrollOffset, size: Size) -> ScrollOffset {
    ScrollOffset {
        rows: scroll_axis(loc.row as int, off.rows as int, size.rows as int) as usize,
        cols: scroll_axis(loc.col as int, off.cols as int, size.cols as int) as usize,
    }
}

/// Whether scrolling to `loc` moves the window on some axis.
pub open spec fn scroll_changes(loc: Location, off: ScrollOffset, size: Size) -> bool {
    scroll_fires(loc.row as int, off.rows as int, size.rows as int)
        || scroll_fires(loc.col as int, off.cols as int, size.cols as int)
}

/// The row and column that `d` moves to, before the column is clamped to the
/// length of the line reached. `lines` is not empty and `loc` is valid.
pub open spec fn move_target(
    lines: Seq<Seq<char>>,
    loc: Location,
    off: ScrollOffset,
    size: Size,
    d: Direction,
) -> (int, int) {
    let row = loc.row as int;
    let col = loc.col as int;
    let last = lines.len() - 1;
    let len = lines[row].len() as int;
    match d {
        Direction::Right => if col < len {
            (row, col + 1)
        } else if row < last {
            (row + 1, 0)
        } else {
            (row, col)
        },
        Direction::Left => if col > 0 {
            (row, col - 1)
        } else if row > 0 {
            (row - 1, lines[row - 1].len() as int)
        } else {
            (row, col)
        },
        Direction::Up => (if row > 0 { row - 1 } else { 0 }, col),
        Direction::Down => (if row < last { row + 1 } else { row }, col),
        Direction::PageUp => (
            if row > off.rows {
                off.rows as int
            } else if row > size.rows {
                row - size.rows
            } else {
                0
            },
            col,
        ),
        Direction::PageDown => {
            let bottom = off.rows + size.rows - 1;
            let target = if row < bottom { bottom } else { row + size.rows };
            (if target < last { target } else { last }, col)
        },
        Direction::Home => (row, 0),
        Direction::End => (row, len),
    }
}

/// Where the cursor stands after moving in direction `d`: the target of the
/// move with its column capped to the length of the line reached. Over an
/// empty buffer the cursor does not move.
pub open spec fn moved_location(
    lines: Seq<Seq<char>>,
    loc: Location,
    off: ScrollOffset,
    size: Size,
    d: Direction,
) -> Location {
    if lines.len() == 0 {
        loc
    } else {
        let (row, col) = move_target(lines, loc, off, size, d);
        let len = lines[row].len() as int;
        Location { row: row as usize, col: (if col < len { col } else { len }) as usize }
    }
}

/// `after` is `before` with the cursor moved in direction `d` and the window
/// scrolled to hold it; a redraw is owed when the window moved.
pub open spec fn moved_view(before: View, after: View, d: Direction) -> bool {
    &&& after.location == moved_location(before.lines(), before.location, before.scroll_offset, before.size, d)
    &&& after.scroll_offset == scrolled(after.location, before.scroll_offset, before.size)
    &&& after.needs_redraw == (before.needs_redraw || scroll_changes(after.location, before.scroll_offset, before.size))
    &&& after.size == before.size
    &&& after.lines() == before.lines()
}

/// `after` is `before` seen through a window of `size`, scrolled to hold the
/// cursor, with a redraw owed.
pub open spec fn resized_view(before: View, after: View, size: Size) -> bool {
    &&& after.size == size
    &&& after.location == before.location
    &&& after.scroll_offset == scrolled(before.location, before.scroll_offset, size)
    &&& after.needs_redraw
    &&& after.lines() == before.lines()
}

/// Whatever the cursor and the window were, the window scrolled to the
/// cursor holds it on every axis of positive extent; so after any sequence of
/// moves, resizes and loads, each of which ends by scrolling, the cursor is
/// on screen.
pub proof fn lemma_scrolled_window_holds_cursor(loc: Location, off: ScrollOffset, size: Size)
    ensures
        cursor_in_window(loc, scrolled(loc, off, size), size),
{
    if size.rows > 0 {
        lemma_scroll_axis_holds_cursor(loc.row as int, off.rows as int, size.rows as int);
    }
    if size.cols > 0 {
        lemma_scroll_axis_holds_cursor(loc.col as int, off.cols as int, size.cols as int);
    }
}

/// Every count of `lines` fits in a `usize`, as it does for the lines of a
/// buffer in memory.
pub open spec fn lines_fit(lines: Seq<Seq<char>>) -> bool {
    &&& lines.len() <= usize::MAX
    &&& forall|i: int| 0 <= i < lines.len() ==> #[trigger] lines[i].len() <= usize::MAX
}

/// Every move keeps the cursor on a position of the buffer: on an existing
/// line, at most one column past its last character.
pub proof fn lemma_move_keeps_location_valid(
    lines: Seq<Seq<char>>,
    loc: Location,
    off: ScrollOffset,
    size: Size,
    d: Direction,
)
    requires
        lines_fit(lines),
        location_valid(lines, loc),
    ensures
        location_valid(lines, moved_location(lines, loc, off, size, d)),
{
}

/// `Home` always leaves the cursor in column 0, on the line it was on.
pub proof fn lemma_home_goes_to_column_zero(lines: Seq<Seq<char>>, loc: Location, off: ScrollOffset, size: Size)
    requires
        location_valid(lines, loc),
    ensures
        moved_location(lines, loc, off, size, Direction::Home) == (Location { row: loc.row, col: 0 }),
{
}

/// `End` followed by `Home` returns the cursor to column 0 of the line it
/// was on, whatever the window did in between.
pub proof fn lemma_end_then_home(
    lines: Seq<Seq<char>>,
    loc: Location,
    off: ScrollOffset,
    size: Size,
    later_off: ScrollOffset,
    later_size: Size,
)
    requires
        location_valid(lines, loc),
    ensures
        moved_location(lines, loc, off, size, Direction::End).row == loc.row,
        moved_location(
            lines,
            moved_location(lines, loc, off, size, Direction::End),
            later_off,
            later_size,
            Direction::Home,
        ) == (Location { row: loc.row, col: 0 }),
{
}

/// What rendering `v` draws: the whole screen when a redraw is owed, and
/// nothing otherwise.
pub open spec fn render_steps(v: View) -> Seq<DrawStep> {
    if v.needs_redraw {
        frame_steps(v.lines(), v.size, v.scroll_offset)
    } else {
        Seq::empty()
    }
}

/// `after` is what rendering leaves of `before`: the same buffer, cursor,
/// size and window, with no redraw owed.
pub open spec fn rendered_from(before: View, after: View) -> bool {
    &&& after.lines() == before.lines()
    &&& after.location == before.location
    &&& after.size == before.size
    &&& after.scroll_offset == before.scroll_offset
    &&& !after.needs_redraw
}

/// Rendering twice in a row: the second render draws nothing and leaves the
/// view as the first one left it.
pub proof fn lemma_render_twice_is_noop(v: View, once: View, twice: View)
    requires
        rendered_from(v, once),
        rendered_from(once, twice),
    ensures
        render_steps(once) == Seq::<DrawStep>::empty(),
        twice.lines() == once.lines(),
        twice.location == once.location,
        twice.size == once.size,
        twice.scroll_offset == once.scroll_offset,
        twice.needs_redraw == once.needs_redraw,
{
}

impl View {
    /// The lines of the buffer.
    pub open spec fn lines(&self) -> Seq<Seq<char>> {
        self.buffer@
    }

    /// The cursor names a position of the buffer.
    pub open spec fn wf(&self) -> bool {
        location_valid(self.lines(), self.location)
    }

    /// An empty buffer seen through a window of `size`, cursor and window at
    /// the origin, and a first render owed.
    pub fn new(size: Size) -> (r: View)
        ensures
            r.lines() == Seq::<Seq<char>>::empty(),
            r.location == (Location { row: 0, col: 0 }),
            r.scroll_offset == (ScrollOffset { rows: 0, cols: 0 }),
            r.size == size,
            r.needs_redraw,
            r.wf(),
    {
        View {
            location: Location { row: 0, col: 0 },
            size,
            buffer: Buffer::new(),
            needs_redraw: true,
            scroll_offset: ScrollOffset { rows: 0, cols: 0 },
        }
    }

    /// Whether the cursor names a position of the buffer (see [`View::wf`]).
    pub fn is_valid(&self) -> (r: bool)
        ensures
            r == self.wf(),
    {
        if self.buffer.is_empty() {
            self.location.row == 0 && self.location.col == 0
        } else {
            self.location.row < self.buffer.len() && self.location.col <= self.buffer.line_len(self.location.row)
        }
    }

    /// Scrolls the window just far enough to hold the cursor, and asks for a
    /// redraw when it moved.
    pub fn handle_scroll(&mut self)
        ensures
            final(self).scroll_offset == scrolled(old(self).location, old(self).scroll_offset, old(self).size),
            final(self).needs_redraw == (old(self).needs_redraw || scroll_changes(
                old(self).location,
                old(self).scroll_offset,
                old(self).size,
            )),
            cursor_in_window(final(self).location, final(self).scroll_offset, final(self).size),
            final(self).location == old(self).location,
            final(self).size == old(self).size,
            final(self).lines() == old(self).lines(),
    {
        let (cols, moved_cols) = scroll_one_axis(self.location.col, self.scroll_offset.cols, self.size.cols);
        let (rows, moved_rows) = scroll_one_axis(self.location.row, self.scroll_offset.rows, self.size.rows);
        self.scroll_offset = ScrollOffset { rows, cols };
        if moved_cols || moved_rows {
            self.needs_redraw = true;
        }
        proof {
            lemma_scrolled_window_holds_cursor(self.location, old(self).scroll_offset, self.size);
        }
    }

    /// Moves the cursor one step in `direction` (see [`moved_location`]), then
    /// scrolls the window to hold it.
    pub fn move_point(&mut self, direction: Direction)
        requires
            old(self).wf(),
        ensures
            moved_view(*old(self), *final(self), direction),
            final(self).wf(),
            cursor_in_window(final(self).location, final(self).scroll_offset, final(self).size),
    {
        if !self.buffer.is_empty() {
            let row = self.location.row;
            let col = self.location.col;
            let len = self.buffer.line_len(row);
            let last = self.buffer.len() - 1;
            let (new_row, new_col): (usize, usize) = match direction {
                Direction::Right => if col < len {
                    (row, col + 1)
                } else if row < last {
                    (row + 1, 0)
                } else {
                    (row, col)
                },
                Direction::Left => if col > 0 {
                    (row, col - 1)
                } else if row > 0 {
                    (row - 1, self.buffer.line_len(row - 1))
                } else {
                    (row, col)
                },
                Direction::Up => (if row > 0 { row - 1 } else { 0 }, col),
                Direction::Down => (if row < last { row + 1 } else { row }, col),
                Direction::PageUp => (
                    if row > self.scroll_offset.rows {
                        self.scroll_offset.rows
                    } else {
                        row.saturating_sub(self.size.rows)
                    },
                    col,
                ),
                Direction::PageDown => {
                    let target: usize = match self.scroll_offset.rows.checked_add(self.size.rows) {
                        Some(end) => if row + 1 < end {
                            end - 1
                        } else {
                            match row.checked_add(self.size.rows) {
                                Some(t) => t,
                                None => last,
                            }
                        },
                        None => last,
                    };
                    (if target < last { target } else { last }, col)
                },
                Direction::Home => (row, 0),
                Direction::End => (row, len),
            };
            let new_len = self.buffer.line_len(new_row);
            self.location = Location { row: new_row, col: if new_col < new_len { new_col } else { new_len } };
        }
        self.handle_scroll();
    }

    /// Adopts a new window size, scrolls to hold the cursor, and asks for a
    /// redraw since all visible content is stale.
    pub fn resize(&mut self, size: Size)
        requires
            old(self).wf(),
        ensures
            resized_view(*old(self), *final(self), size),
            final(self).wf(),
            cursor_in_window(final(self).location, final(self).scroll_offset, final(self).size),
    {
        self.size = size;
        self.needs_redraw = true;
        self.handle_scroll();
    }

    /// Appends the lines of `text` to the buffer, scrolls to hold the cursor,
    /// and asks for a redraw.
    pub fn load(&mut self, text: &str)
        requires
            old(self).wf(),
        ensures
            final(self).lines() == old(self).lines() + lines_of(text@),
            final(self).location == old(self).location,
            final(self).size == old(self).size,
            final(self).scroll_offset == scrolled(old(self).location, old(self).scroll_offset, old(self).size),
            final(self).needs_redraw,
            final(self).wf(),
            cursor_in_window(final(self).location, final(self).scroll_offset, final(self).size),
    {
        self.buffer.load(text);
        self.needs_redraw = true;
        proof {
            if old(self).lines().len() > 0 {
                let row = self.location.row as int;
                assert(self.lines()[row] == old(self).lines()[row]);
            }
        }
        self.handle_scroll();
    }

    /// The text of screen row `r` (see [`row_text`]).
    fn screen_row(&self, r: usize) -> (t: String)
        requires
            r < self.size.rows,
        ensures
            t@ == row_text(self.lines(), self.size, self.scroll_offset, r as int),
    {
        let n = self.buffer.len();
        let first = self.scroll_offset.rows;
        if first < n && r < n - first {
            let b = first + r;
            let len = self.buffer.line_len(b);
            let from = if self.scroll_offset.cols < len { self.scroll_offset.cols } else { len };
            truncate(self.buffer.slice(b, from, len), self.size.cols)
        } else if n == 0 && r == self.size.rows / 3 {
            banner_line(self.size.cols)
        } else {
            let tilde = String::from_str("~");
            proof {
                reveal_strlit("~");
                assert(tilde@ =~= seq!['~']);
            }
            truncate(tilde, self.size.cols)
        }
    }

    /// Draws the visible part of the buffer when a redraw is owed (nothing
    /// otherwise) and marks the screen as up to date.
    pub fn render(&mut self) -> (ops: Vec<DrawOp>)
        ensures
            steps_of(ops@) == render_steps(*old(self)),
            rendered_from(*old(self), *final(self)),
    {
        let mut ops: Vec<DrawOp> = Vec::new();
        if self.needs_redraw {
            ops.push(DrawOp::MoveCursorTo(CursorPosition { row: 0, col: 0 }));
            let ghost head = steps_of(ops@);
            proof {
                assert(head + row_steps(self.lines(), self.size, self.scroll_offset, 0) =~= head);
            }
            let mut r: usize = 0;
            while r < self.size.rows
                invariant
                    r <= self.size.rows,
                    self.needs_redraw,
                    head == seq![DrawStep::MoveCursorTo(CursorPosition { row: 0, col: 0 })],
                    steps_of(ops@) == head + row_steps(self.lines(), self.size, self.scroll_offset, r as nat),
                decreases self.size.rows - r,
            {
                let ghost before = steps_of(ops@);
                let ghost sep = if r > 0 { seq![DrawStep::Print(row_separator())] } else { Seq::empty() };
                if r > 0 {
                    let separator = String::from_str("\r\n");
                    proof {
                        reveal_strlit("\r\n");
                        assert(separator@ =~= row_separator());
                    }
                    ops.push(DrawOp::Print(separator));
                }
                ops.push(DrawOp::ClearLine);
                let text = self.screen_row(r);
                ops.push(DrawOp::Print(text));
                proof {
                    assert(steps_of(ops@) =~= before + sep + seq![
                        DrawStep::ClearLine,
                        DrawStep::Print(row_text(self.lines(), self.size, self.scroll_offset, r as int)),
                    ]);
                }
                r = r + 1;
            }
            self.needs_redraw = false;
        } else {
            assert(steps_of(ops@) =~= Seq::<DrawStep>::empty());
        }
        ops
    }
}

} // verus!
