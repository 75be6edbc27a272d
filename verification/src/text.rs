//! Lines of on-screen text with at most one highlighted line and one cursor.

use vstd::prelude::*;

verus! {

/// The number of bytes that a line of text occupies.
pub open spec fn byte_len(line: Seq<char>) -> nat {
    vstd::utf8::encode_utf8(line).len()
}

/// The mathematical content of a [`TextOSD`].
pub struct TextContent {
    /// The lines, top to bottom.
    pub lines: Seq<Seq<char>>,
    /// The cursor, as a line index and a byte offset into that line.
    pub highlight_char: Option<(nat, nat)>,
    /// The index of the highlighted line.
    pub highlight_line: Option<nat>,
}

impl TextContent {
    /// The content after `line` was appended; the highlights stay.
    pub open spec fn with_line(self, line: Seq<char>) -> TextContent {
        TextContent { lines: self.lines.push(line), ..self }
    }

    /// Every highlight points at a line that exists, and the cursor lies
    /// within its line or directly behind it.
    pub open spec fn wf(self) -> bool {
        &&& match self.highlight_line {
            Some(l) => l < self.lines.len(),
            None => true,
        }
        &&& match self.highlight_char {
            Some((l, c)) => l < self.lines.len() && c <= byte_len(self.lines[l as int]),
            None => true,
        }
    }

    /// `i` is the line that a renderer measures for the width of the block:
    /// the last among the lines with the most bytes.
    pub open spec fn is_longest(self, i: int) -> bool {
        &&& 0 <= i < self.lines.len()
        &&& forall|j: int|
            0 <= j < self.lines.len() ==> byte_len(#[trigger] self.lines[j]) <= byte_len(
                self.lines[i],
            )
        &&& forall|j: int|
            i < j < self.lines.len() ==> byte_len(#[trigger] self.lines[j]) < byte_len(
                self.lines[i],
            )
    }
}

/// How a renderer marks one line.
#[derive(Clone, Copy, PartialEq, Eq, Structural, Debug)]
pub struct LineMarks {
    /// Whether the whole line is highlighted.
    pub highlighted: bool,
    /// The offset of the cursor, where it stands in this line.
    pub cursor: Option<usize>,
    /// Whether the cursor stands directly behind the line.
    pub cursor_at_end: bool,
}

pub struct TextOSD {
    lines: Vec<String>,
    // (Line, byte offset) indices
    // Can have one of each, sure, why not
    highlight_char: Option<(usize, usize)>,
    highlight_line: Option<usize>,
}

impl View for TextOSD {
    type V = TextContent;

    closed spec fn view(&self) -> TextContent {
        TextContent {
            lines: Seq::new(self.lines@.len(), |i: int| self.lines@[i]@),
            highlight_char: match self.highlight_char {
                Some((l, c)) => Some((l as nat, c as nat)),
                None => None,
            },
            highlight_line: match self.highlight_line {
                Some(l) => Some(l as nat),
                None => None,
            },
        }
    }
}

impl TextOSD {
    /// An empty block of text without highlights.
    pub fn new() -> (osd: TextOSD)
        ensures
            osd@.lines == Seq::<Seq<char>>::empty(),
            osd@.highlight_char is None,
            osd@.highlight_line is None,
            osd@.wf(),
    {
        let osd = TextOSD { lines: Vec::new(), highlight_char: None, highlight_line: None };
        assert(osd@.lines =~= Seq::<Seq<char>>::empty());
        osd
    }

    /// Appends an empty line, unless there is no line yet.
    pub fn pad_if_nonempty(&mut self)
        ensures
            final(self)@ == if old(self)@.lines.len() == 0 {
                old(self)@
            } else {
                old(self)@.with_line(Seq::<char>::empty())
            },
            old(self)@.wf() ==> final(self)@.wf(),
    {
        if !self.lines.is_empty() {
            let blank = String::new();
            self.lines.push(blank);
            assert(final(self)@.lines =~= old(self)@.lines.push(Seq::<char>::empty()));
        }
    }

    /// Appends `line`.
    pub fn add_line(&mut self, line: String)
        ensures
            final(self)@ == old(self)@.with_line(line@),
            old(self)@.wf() ==> final(self)@.wf(),
    {
        self.lines.push(line);
        assert(final(self)@.lines =~= old(self)@.lines.push(line@));
    }

    /// Appends `line` and puts the cursor at byte `cursor` of it. The cursor
    /// may stand directly behind the line. There may be no cursor yet.
    pub fn add_line_with_cursor(&mut self, line: String, cursor: usize)
        requires
            old(self)@.highlight_char is None,
            cursor <= byte_len(line@),
        ensures
            final(self)@ == (TextContent {
                highlight_char: Some((old(self)@.lines.len(), cursor as nat)),
                ..old(self)@.with_line(line@)
            }),
            old(self)@.wf() ==> final(self)@.wf(),
    {
        self.highlight_char = Some((self.lines.len(), cursor));
        self.lines.push(line);
        assert(final(self)@.lines =~= old(self)@.lines.push(line@));
    }

    /// Appends `line` and highlights it. There may be no highlighted line yet.
    pub fn add_highlighted_line(&mut self, line: String)
        requires
            old(self)@.highlight_line is None,
        ensures
            final(self)@ == (TextContent {
                highlight_line: Some(old(self)@.lines.len()),
                ..old(self)@.with_line(line@)
            }),
            old(self)@.wf() ==> final(self)@.wf(),
    {
        self.highlight_line = Some(self.lines.len());
        self.lines.push(line);
        assert(final(self)@.lines =~= old(self)@.lines.push(line@));
    }

    /// Whether there is no line.
    pub fn is_empty(&self) -> (empty: bool)
        ensures
            empty == (self@.lines.len() == 0),
    {
        self.lines.is_empty()
    }

    /// The number of lines, which a renderer multiplies by its line height.
    pub fn line_count(&self) -> (n: usize)
        ensures
            n == self@.lines.len(),
    {
        self.lines.len()
    }

    /// The index of the line whose rendered width is the width of the block:
    /// the last of the lines with the most bytes.
    pub fn longest_line(&self) -> (i: usize)
        requires
            self@.lines.len() > 0,
        ensures
            self@.is_longest(i as int),
    {
        let mut best: usize = 0;
        let mut best_len: usize = self.lines[0].as_str().as_bytes().len();
        let mut k: usize = 1;
        while k < self.lines.len()
            invariant
                1 <= k <= self.lines@.len(),
                best < k,
                best_len == byte_len(self@.lines[best as int]),
                forall|j: int|
                    0 <= j < k ==> byte_len(#[trigger] self@.lines[j]) <= best_len,
                forall|j: int|
                    best < j < k ==> byte_len(#[trigger] self@.lines[j]) < best_len,
            decreases self.lines@.len() - k,
        {
            let len: usize = self.lines[k].as_str().as_bytes().len();
            if len >= best_len {
                best = k;
                best_len = len;
            }
            k = k + 1;
        }
        best
    }

    /// The line at `i`.
    pub fn line(&self, i: usize) -> (line: &String)
        requires
            i < self@.lines.len(),
        ensures
            line@ == self@.lines[i as int],
    {
        &self.lines[i]
    }

    /// The marks of the line at `i`: whether it is the highlighted one, and
    /// where in it the cursor stands, if it does.
    pub fn marks(&self, i: usize) -> (marks: LineMarks)
        requires
            i < self@.lines.len(),
        ensures
            marks.highlighted == (self@.highlight_line == Some(i as nat)),
            match marks.cursor {
                Some(c) => self@.highlight_char == Some((i as nat, c as nat)),
                None => match self@.highlight_char {
                    Some((l, _)) => l != i,
                    None => true,
                },
            },
            marks.cursor_at_end == (marks.cursor is Some && marks.cursor->0 == byte_len(
                self@.lines[i as int],
            )),
    {
        let highlighted = match self.highlight_line {
            Some(l) => l == i,
            None => false,
        };
        let cursor = match self.highlight_char {
            Some((l, c)) => if l == i {
                Some(c)
            } else {
                None
            },
            None => None,
        };
        let cursor_at_end = match cursor {
            Some(c) => c == self.lines[i].as_str().as_bytes().len(),
            None => false,
        };
        LineMarks { highlighted, cursor, cursor_at_end }
    }

    /// The index of the highlighted line, if there is one.
    pub fn highlighted_line(&self) -> (l: Option<usize>)
        ensures
            match l {
                Some(i) => self@.highlight_line == Some(i as nat),
                None => self@.highlight_line is None,
            },
    {
        self.highlight_line
    }

    /// The cursor, if there is one: a line index and a byte offset.
    pub fn cursor(&self) -> (c: Option<(usize, usize)>)
        ensures
            match c {
                Some((l, b)) => self@.highlight_char == Some((l as nat, b as nat)),
                None => self@.highlight_char is None,
            },
    {
        self.highlight_char
    }
}

} // verus!
