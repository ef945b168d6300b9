//! The text buffer: an ordered list of lines, filled once from a text.
use vstd::prelude::*;

verus! {

/// Where splitting a text into lines stands after a prefix of it: the lines
/// closed so far, the characters of the line still open, and whether the
/// last character was a carriage return (so that a following line feed
/// belongs to the same terminator).
pub struct SplitState {
    pub closed: Seq<Seq<char>>,
    pub open: Seq<char>,
    pub after_cr: bool,
}

/// One step of line splitting. `"\n"`, `"\r\n"` and a lone `"\r"` each end
/// a line; every other character joins the open line.
pub open spec fn split_step(st: SplitState, c: char) -> SplitState {
    if c == '\n' {
        if st.after_cr {
            SplitState { closed: st.closed, open: Seq::empty(), after_cr: false }
        } else {
            SplitState { closed: st.closed.push(st.open), open: Seq::empty(), after_cr: false }
        }
    } else if c == '\r' {
        SplitState { closed: st.closed.push(st.open), open: Seq::empty(), after_cr: true }
    } else {
        SplitState { closed: st.closed, open: st.open.push(c), after_cr: false }
    }
}

/// The state after splitting all of `t`.
pub open spec fn split_scan(t: Seq<char>) -> SplitState
    decreases t.len(),
{
    if t.len() == 0 {
        SplitState { closed: Seq::empty(), open: Seq::empty(), after_cr: false }
    } else {
        split_step(split_scan(t.drop_last()), t.last())
    }
}

/// The lines of `t`: line terminators are removed, empty lines are kept,
/// and a terminator at the very end does not start one more (empty) line.
pub open spec fn lines_of(t: Seq<char>) -> Seq<Seq<char>> {
    let st = split_scan(t);
    if st.open.len() == 0 {
        st.closed
    } else {
        st.closed.push(st.open)
    }
}

/// `s` holds no line terminator.
pub open spec fn is_single_line(s: Seq<char>) -> bool {
    forall|i: int| 0 <= i < s.len() ==> s[i] != '\n' && s[i] != '\r'
}

/// Every line that splitting produces is free of terminators.
pub proof fn lemma_split_scan_single_lines(t: Seq<char>)
    ensures
        is_single_line(split_scan(t).open),
        forall|k: int| 0 <= k < split_scan(t).closed.len() ==> is_single_line(#[trigger] split_scan(t).closed[k]),
    decreases t.len(),
{
    if t.len() > 0 {
        lemma_split_scan_single_lines(t.drop_last());
    }
}

/// Every line of a loaded text is free of terminators.
pub proof fn lemma_lines_of_single_lines(t: Seq<char>)
    ensures
        forall|k: int| 0 <= k < lines_of(t).len() ==> is_single_line(#[trigger] lines_of(t)[k]),
{
    lemma_split_scan_single_lines(t);
}

/// Relies on `String::push`: the character is appended at the end.
#[verifier::external_body]
pub(crate) fn push_char(s: &mut String, c: char)
    ensures
        final(s)@ == old(s)@.push(c),
{
    s.push(c)
}

/// An ordered sequence of text lines; row `i` of the buffer is line `i`.
pub struct Buffer {
    lines: Vec<String>,
}

impl vstd::view::View for Buffer {
    type V = Seq<Seq<char>>;

    closed spec fn view(&self) -> Seq<Seq<char>> {
        self.lines@.map_values(|s: String| s@)
    }
}

impl Buffer {
    /// An empty buffer.
    pub fn new() -> (r: Buffer)
        ensures
            r@ == Seq::<Seq<char>>::empty(),
    {
        let r = Buffer { lines: Vec::new() };
        assert(r@ =~= Seq::<Seq<char>>::empty());
        r
    }

    /// Whether the buffer has no line at all.
    pub fn is_empty(&self) -> (r: bool)
        ensures
            r == (self@.len() == 0),
    {
        self.lines.len() == 0
    }

    /// The number of lines.
    pub fn len(&self) -> (r: usize)
        ensures
            r == self@.len(),
    {
        self.lines.len()
    }

    /// The number of characters of line `row`.
    pub fn line_len(&self, row: usize) -> (r: usize)
        requires
            row < self@.len(),
        ensures
            r == self@[row as int].len(),
    {
        self.lines[row].as_str().unicode_len()
    }

    /// The characters of line `row` from index `from` up to, not including, `to`.
    pub fn slice(&self, row: usize, from: usize, to: usize) -> (r: String)
        requires
            row < self@.len(),
            from <= to <= self@[row as int].len(),
        ensures
            r@ == self@[row as int].subrange(from as int, to as int),
    {
        String::from_str(self.lines[row].as_str().substring_char(from, to))
    }

    /// Appends the lines of `text` after the lines already held.
    pub fn load(&mut self, text: &str)
        ensures
            final(self)@ == old(self)@ + lines_of(text@),
    {
        let ghost t = text@;
        let mut open = String::new();
        let mut after_cr = false;
        let ghost start = self@;
        proof {
            assert(t.take(0) =~= Seq::<char>::empty());
        }
        for c in it: text.chars()
            invariant
                it.seq() == t,
                start + split_scan(t.take(it.index() as int)).closed == self@,
                split_scan(t.take(it.index() as int)).open == open@,
                split_scan(t.take(it.index() as int)).after_cr == after_cr,
        {
            let ghost i = it.index() as int;
            proof {
                assert(t.take(i + 1).drop_last() =~= t.take(i));
                assert(t.take(i + 1).last() == c);
            }
            let ghost before = self@;
            let ghost line = open@;
            if c == '\n' {
                if !after_cr {
                    self.lines.push(open);
                    assert(self@ =~= before.push(line));
                    open = String::new();
                }
                after_cr = false;
            } else if c == '\r' {
                self.lines.push(open);
                assert(self@ =~= before.push(line));
                open = String::new();
                after_cr = true;
            } else {
                push_char(&mut open, c);
                after_cr = false;
            }
            proof {
                assert(start + split_scan(t.take(i + 1)).closed =~= self@);
            }
        }
        proof {
            assert(t.take(t.len() as int) =~= t);
        }
        if open.as_str().unicode_len() > 0 {
            let ghost before = self@;
            let ghost line = open@;
            self.lines.push(open);
            assert(self@ =~= before.push(line));
            proof {
                assert(start + lines_of(t) =~= self@);
            }
        }
        proof {
            assert(start + lines_of(t) =~= self@);
        }
    }
}

} // verus!
