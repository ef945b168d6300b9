//! What a screen refresh draws, as a list of terminal operations.
use vstd::prelude::*;

use crate::buffer::push_char;
use crate::geometry::{CursorPosition, ScrollOffset, Size};

verus! {

/// One terminal operation.
#[derive(Debug, PartialEq, Eq)]
pub enum DrawOp {
    HideCursor,
    ShowCursor,
    ClearScreen,
    ClearLine,
    MoveCursorTo(CursorPosition),
    Print(String),
}

/// The mathematical model of a [`DrawOp`], with the printed text as characters.
pub enum DrawStep {
    HideCursor,
    ShowCursor,
    ClearScreen,
    ClearLine,
    MoveCursorTo(CursorPosition),
    Print(Seq<char>),
}

impl vstd::view::View for DrawOp {
    type V = DrawStep;

    open spec fn view(&self) -> DrawStep {
        match self {
            DrawOp::HideCursor => DrawStep::HideCursor,
            DrawOp::ShowCursor => DrawStep::ShowCursor,
            DrawOp::ClearScreen => DrawStep::ClearScreen,
            DrawOp::ClearLine => DrawStep::ClearLine,
            DrawOp::MoveCursorTo(p) => DrawStep::MoveCursorTo(*p),
            DrawOp::Print(s) => DrawStep::Print(s@),
        }
    }
}

/// The steps that a list of operations stands for.
pub open spec fn steps_of(ops: Seq<DrawOp>) -> Seq<DrawStep> {
    ops.map_values(|o: DrawOp| o@)
}

/// The editor's name, shown on the welcome banner.
pub const NAME: &'static str = "hecto";

/// The editor's version, shown on the welcome banner.
pub const VERSION: &'static str = "0.1.0";

/// The text of the welcome banner: `"{NAME} editor -- {VERSION}"`.
pub open spec fn banner_message() -> Seq<char> {
    NAME@ + " editor -- "@ + VERSION@
}

/// The column at which the banner message starts on a screen `cols` wide:
/// half of the room left beside it, or 0 where there is none.
pub open spec fn banner_padding(cols: int) -> int {
    if cols > banner_message().len() {
        (cols - banner_message().len()) / 2
    } else {
        0
    }
}

/// `n` spaces.
pub open spec fn spaces(n: int) -> Seq<char> {
    Seq::new(n as nat, |i: int| ' ')
}

/// The banner row before truncation: a `~` at column 0, then spaces up to
/// the padding column, then the message.
pub open spec fn banner_row(cols: int) -> Seq<char> {
    let pad = banner_padding(cols);
    seq!['~'] + spaces(if pad > 0 { pad - 1 } else { 0 }) + banner_message()
}

/// `s` cut to at most `n` characters.
pub open spec fn truncated(s: Seq<char>, n: int) -> Seq<char> {
    if s.len() <= n {
        s
    } else {
        s.take(n)
    }
}

/// The text of screen row `r`: the part of buffer line `off.rows + r` from
/// column `off.cols` on (empty where the line is shorter); past the end of
/// the buffer a `~`, except that an empty buffer shows the banner on the row
/// a third of the way down. Every row is cut to the screen's width.
pub open spec fn row_text(lines: Seq<Seq<char>>, size: Size, off: ScrollOffset, r: int) -> Seq<char> {
    let b = off.rows + r;
    if b < lines.len() {
        let line = lines[b];
        let from = if off.cols < line.len() { off.cols as int } else { line.len() as int };
        truncated(line.subrange(from, line.len() as int), size.cols as int)
    } else if lines.len() == 0 && r == size.rows / 3 {
        truncated(banner_row(size.cols as int), size.cols as int)
    } else {
        truncated(seq!['~'], size.cols as int)
    }
}

/// The line break printed between two screen rows.
pub open spec fn row_separator() -> Seq<char> {
    seq!['\r', '\n']
}

/// The steps that draw the first `n` screen rows: each row is cleared and
/// printed, and rows are separated by a line break.
pub open spec fn row_steps(lines: Seq<Seq<char>>, size: Size, off: ScrollOffset, n: nat) -> Seq<DrawStep>
    decreases n,
{
    if n == 0 {
        Seq::empty()
    } else {
        let before = row_steps(lines, size, off, (n - 1) as nat);
        let sep = if n > 1 { seq![DrawStep::Print(row_separator())] } else { Seq::empty() };
        before + sep + seq![DrawStep::ClearLine, DrawStep::Print(row_text(lines, size, off, n - 1))]
    }
}

/// The steps that draw a whole screen: home the cursor, then every row.
pub open spec fn frame_steps(lines: Seq<Seq<char>>, size: Size, off: ScrollOffset) -> Seq<DrawStep> {
    seq![DrawStep::MoveCursorTo(CursorPosition { row: 0, col: 0 })] + row_steps(lines, size, off, size.rows as nat)
}

/// The first `n` characters of `s`, or all of them where it is shorter.
pub fn truncate(s: String, n: usize) -> (r: String)
    ensures
        r@ == truncated(s@, n as int),
{
    let len = s.as_str().unicode_len();
    if len <= n {
        s
    } else {
        String::from_str(s.as_str().substring_char(0, n))
    }
}

/// The banner row of a screen `cols` wide, cut to that width.
pub fn banner_line(cols: usize) -> (r: String)
    ensures
        r@ == truncated(banner_row(cols as int), cols as int),
{
    let mut message = String::from_str(NAME);
    message.append(" editor -- ");
    message.append(VERSION);
    let message_len = message.as_str().unicode_len();
    let pad: usize = if cols > message_len { (cols - message_len) / 2 } else { 0 };
    let mut line = String::from_str("~");
    proof {
        reveal_strlit("~");
        assert(line@ =~= seq!['~'] + spaces(0));
    }
    let mut i: usize = 1;
    while i < pad
        invariant
            1 <= i,
            i <= pad || i == 1,
            line@ == seq!['~'] + spaces(i - 1),
        decreases pad - i,
    {
        push_char(&mut line, ' ');
        proof {
            assert(line@ =~= seq!['~'] + spaces(i as int));
        }
        i = i + 1;
    }
    proof {
        assert(spaces(i - 1) == spaces(if pad > 0 { pad - 1 } else { 0 }));
    }
    line.append(message.as_str());
    truncate(line, cols)
}

} // verus!
