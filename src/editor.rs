//! The editor state that the input loop drives: decisions from commands to
//! state changes, and from state to what the screen must show.
use vstd::prelude::*;

use vstd::view::View as _;

use crate::command::EditorCommand;
use crate::frame::{steps_of, DrawOp, DrawStep};
use crate::geometry::{CursorPosition, Location, ScrollOffset, Size};
use crate::view::{moved_view, render_steps, rendered_from, resized_view, View};

verus! {

/// One view, and whether the user asked to quit.
pub struct Editor {
    pub view: View,
    pub should_quit: bool,
}

/// `x` held to the range of a `u16`.
pub open spec fn clamp_to_u16(x: int) -> u16 {
    if x < 0 {
        0
    } else if x > u16::MAX {
        u16::MAX
    } else {
        x as u16
    }
}

/// Where the terminal cursor goes for buffer position `loc` when the window
/// starts at `off`: the cursor's place relative to the window.
pub open spec fn screen_position(loc: Location, off: ScrollOffset) -> CursorPosition {
    CursorPosition {
        row: clamp_to_u16(loc.row - off.rows),
        col: clamp_to_u16(loc.col - off.cols),
    }
}

/// The farewell screen: cleared, with a goodbye line at the top.
pub open spec fn goodbye_steps() -> Seq<DrawStep> {
    seq![
        DrawStep::ClearScreen,
        DrawStep::MoveCursorTo(CursorPosition { row: 0, col: 0 }),
        DrawStep::Print("Goodbye!\r\n"@),
    ]
}

/// One screen refresh: with the cursor hidden, the farewell screen once the
/// user quit, else the view's render followed by the cursor's placement;
/// then the cursor is shown again.
pub open spec fn refresh_steps(e: Editor) -> Seq<DrawStep> {
    let body = if e.should_quit {
        goodbye_steps()
    } else {
        render_steps(e.view) + seq![
            DrawStep::MoveCursorTo(screen_position(e.view.location, e.view.scroll_offset)),
        ]
    };
    seq![DrawStep::HideCursor] + body + seq![DrawStep::ShowCursor]
}

/// `after` is `before` once `command` took effect.
pub open spec fn applied(before: Editor, after: Editor, command: EditorCommand) -> bool {
    match command {
        EditorCommand::Quit => after.should_quit && after.view == before.view,
        EditorCommand::Move(d) => after.should_quit == before.should_quit && moved_view(before.view, after.view, d),
        EditorCommand::Resize(size) => after.should_quit == before.should_quit && resized_view(
            before.view,
            after.view,
            size,
        ),
        EditorCommand::Ignore => after == before,
    }
}

impl Editor {
    /// A running editor over an empty buffer shown in a window of `size`.
    pub fn new(size: Size) -> (r: Editor)
        ensures
            !r.should_quit,
            r.view.lines() == Seq::<Seq<char>>::empty(),
            r.view.location == (Location { row: 0, col: 0 }),
            r.view.scroll_offset == (ScrollOffset { rows: 0, cols: 0 }),
            r.view.size == size,
            r.view.needs_redraw,
            r.view.wf(),
    {
        Editor { view: View::new(size), should_quit: false }
    }

    /// Carries out one command: quitting raises the quit flag, a move moves
    /// the cursor, a resize resizes the view, and anything else changes
    /// nothing.
    pub fn evaluate_event(&mut self, command: EditorCommand)
        requires
            old(self).view.wf(),
        ensures
            applied(*old(self), *final(self), command),
            final(self).view.wf(),
    {
        match command {
            EditorCommand::Quit => {
                self.should_quit = true;
            },
            EditorCommand::Move(direction) => {
                self.view.move_point(direction);
            },
            EditorCommand::Resize(size) => {
                self.view.resize(size);
            },
            EditorCommand::Ignore => {},
        }
    }

    /// The farewell screen.
    pub fn print_goodbye(&self) -> (ops: Vec<DrawOp>)
        ensures
            steps_of(ops@) == goodbye_steps(),
    {
        let mut ops: Vec<DrawOp> = Vec::new();
        ops.push(DrawOp::ClearScreen);
        ops.push(DrawOp::MoveCursorTo(CursorPosition { row: 0, col: 0 }));
        ops.push(DrawOp::Print(String::from_str("Goodbye!\r\n")));
        assert(steps_of(ops@) =~= goodbye_steps());
        ops
    }

    /// The terminal operations of one screen refresh (see [`refresh_steps`]);
    /// the view is marked up to date when it was drawn.
    pub fn refresh_screen(&mut self) -> (ops: Vec<DrawOp>)
        ensures
            steps_of(ops@) == refresh_steps(*old(self)),
            final(self).should_quit == old(self).should_quit,
            old(self).should_quit ==> final(self).view == old(self).view,
            !old(self).should_quit ==> rendered_from(old(self).view, final(self).view),
    {
        let mut ops: Vec<DrawOp> = Vec::new();
        ops.push(DrawOp::HideCursor);
        let ghost head = steps_of(ops@);
        let mut body = if self.should_quit {
            self.print_goodbye()
        } else {
            let mut drawn = self.view.render();
            let position = CursorPosition {
                row: saturating_u16(self.view.location.row, self.view.scroll_offset.rows),
                col: saturating_u16(self.view.location.col, self.view.scroll_offset.cols),
            };
            let ghost rendered = steps_of(drawn@);
            drawn.push(DrawOp::MoveCursorTo(position));
            assert(steps_of(drawn@) =~= rendered.push(DrawStep::MoveCursorTo(position)));
            drawn
        };
        let ghost body_steps = steps_of(body@);
        ops.append(&mut body);
        ops.push(DrawOp::ShowCursor);
        assert(steps_of(ops@) =~= head + body_steps + seq![DrawStep::ShowCursor]);
        assert(head =~= seq![DrawStep::HideCursor]);
        ops
    }
}

/// `a - b`, held to the range of a `u16`.
fn saturating_u16(a: usize, b: usize) -> (r: u16)
    ensures
        r == clamp_to_u16(a - b),
{
    if a <= b {
        0
    } else if a - b > 65535 {
        65535
    } else {
        (a - b) as u16
    }
}

} // verus!
