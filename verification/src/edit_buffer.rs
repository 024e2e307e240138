//! The editable text buffer: an ordered sequence of lines plus a cursor,
//! mutated one input event at a time. The buffer is free text — whether it
//! currently parses as structured data is decided elsewhere.

use vstd::prelude::*;

verus! {

/// One keystroke's worth of editing: character insertion, deletion,
/// navigation, line split and join.
#[derive(Debug, Clone, Copy, PartialEq, Eq, Structural)]
pub enum InputEvent {
    /// Insert this character at the cursor.
    Char(char),
    /// Split the current line at the cursor.
    Enter,
    /// Delete the character before the cursor, joining with the previous
    /// line at the start of a line.
    Backspace,
    /// Delete the character under the cursor, joining with the next line
    /// at the end of a line.
    Delete,
    Left,
    Right,
    Up,
    Down,
    /// Move the cursor to the start of the line.
    Home,
    /// Move the cursor to the end of the line.
    End,
    /// An event the buffer does not react to.
    Noop,
}

/// The lines, cursor row and cursor column after one event is applied to
/// a buffer holding `lines` with the cursor at `row`, `col`.
pub open spec fn edit_step(lines: Seq<Seq<char>>, row: int, col: int, ev: InputEvent) -> (
    Seq<Seq<char>>,
    int,
    int,
) {
    match ev {
        InputEvent::Char(c) => (lines.update(row, lines[row].insert(col, c)), row, col + 1),
        InputEvent::Enter => (
            lines.take(row) + seq![lines[row].take(col), lines[row].skip(col)] + lines.skip(
                row + 1,
            ),
            row + 1,
            0,
        ),
        InputEvent::Backspace => if col > 0 {
            (lines.update(row, lines[row].remove(col - 1)), row, col - 1)
        } else if row > 0 {
            (
                lines.take(row - 1) + seq![lines[row - 1] + lines[row]] + lines.skip(row + 1),
                row - 1,
                lines[row - 1].len() as int,
            )
        } else {
            (lines, row, col)
        },
        InputEvent::Delete => if col < lines[row].len() {
            (lines.update(row, lines[row].remove(col)), row, col)
        } else if row + 1 < lines.len() {
            (lines.take(row) + seq![lines[row] + lines[row + 1]] + lines.skip(row + 2), row, col)
        } else {
            (lines, row, col)
        },
        InputEvent::Left => if col > 0 {
            (lines, row, col - 1)
        } else if row > 0 {
            (lines, row - 1, lines[row - 1].len() as int)
        } else {
            (lines, row, col)
        },
        InputEvent::Right => if col < lines[row].len() {
            (lines, row, col + 1)
        } else if row + 1 < lines.len() {
            (lines, row + 1, 0)
        } else {
            (lines, row, col)
        },
        InputEvent::Up => if row > 0 {
            (
                lines,
                row - 1,
                if col <= lines[row - 1].len() {
                    col
                } else {
                    lines[row - 1].len() as int
                },
            )
        } else {
            (lines, row, col)
        },
        InputEvent::Down => if row + 1 < lines.len() {
            (
                lines,
                row + 1,
                if col <= lines[row + 1].len() {
                    col
                } else {
                    lines[row + 1].len() as int
                },
            )
        } else {
            (lines, row, col)
        },
        InputEvent::Home => (lines, row, 0),
        InputEvent::End => (lines, row, lines[row].len() as int),
        InputEvent::Noop => (lines, row, col),
    }
}

/// The buffer's lines joined by a single space, the candidate text for
/// re-parsing.
pub open spec fn joined_text(lines: Seq<Seq<char>>) -> Seq<char>
    decreases lines.len(),
{
    if lines.len() == 0 {
        Seq::empty()
    } else if lines.len() == 1 {
        lines[0]
    } else {
        lines[0] + seq![' '] + joined_text(lines.drop_first())
    }
}

/// Editable text as an ordered sequence of lines with a cursor position.
pub struct EditBuffer {
    pub lines: Vec<String>,
    pub row: usize,
    pub col: usize,
}

impl EditBuffer {
    /// The buffer's text content, line by line.
    pub open spec fn view_lines(self) -> Seq<Seq<char>> {
        self.lines.deep_view()
    }

    /// There is always at least one line, and the cursor sits on a line,
    /// at or before its end.
    pub open spec fn wf(self) -> bool {
        &&& self.lines@.len() >= 1
        &&& self.row < self.lines@.len()
        &&& self.col <= self.lines@[self.row as int]@.len()
    }

    /// A buffer holding the given lines — or one empty line, when none
    /// are given — with the cursor at the top left corner.
    pub fn from_lines(lines: Vec<String>) -> (r: EditBuffer)
        ensures
            r.wf(),
            lines@.len() == 0 ==> r.view_lines() =~= seq![Seq::<char>::empty()],
            lines@.len() > 0 ==> r.view_lines() == lines.deep_view(),
            r.row == 0 && r.col == 0,
    {
        let mut lines = lines;
        if lines.is_empty() {
            lines.push(String::new());
            assert(lines.deep_view() =~= seq![Seq::<char>::empty()]);
        }
        EditBuffer { lines, row: 0, col: 0 }
    }

    /// The buffer's lines, for display.
    pub fn lines_ref(&self) -> (r: &Vec<String>)
        ensures
            r.deep_view() == self.view_lines(),
    {
        &self.lines
    }

    /// The buffer's current text: its lines joined by a single space.
    pub fn text(&self) -> (r: String)
        requires
            self.wf(),
        ensures
            r@ == joined_text(self.view_lines()),
    {
        let ghost all: Seq<Seq<char>> = self.view_lines();
        let mut out = String::new();
        let n = self.lines.len();
        // first line, then a separator before each further line
        out.append(self.lines[0].as_str());
        assert(out@ =~= joined_text(all.take(1)));
        let mut i: usize = 1;
        while i < n
            invariant
                1 <= i <= n,
                n == self.lines@.len(),
                all == self.view_lines(),
                out@ == joined_text(all.take(i as int)),
            decreases n - i,
        {
            out.push(' ');
            out.append(self.lines[i].as_str());
            proof {
                lemma_joined_take_step(all, i as int);
            }
            assert(out@ =~= joined_text(all.take(i as int + 1)));
            i = i + 1;
        }
        proof {
            assert(all.take(n as int) =~= all);
        }
        out
    }

    /// Applies one input event: the lines and cursor move exactly as
    /// `edit_step` describes, and the buffer stays well formed.
    pub fn apply(&mut self, ev: InputEvent)
        requires
            old(self).wf(),
        ensures
            final(self).wf(),
            (final(self).view_lines(), final(self).row as int, final(self).col as int)
                == edit_step(old(self).view_lines(), old(self).row as int, old(self).col as int, ev),
    {
        let ghost lines0: Seq<Seq<char>> = self.view_lines();
        let ghost row0: int = self.row as int;
        let ghost col0: int = self.col as int;
        let row = self.row;
        let col = self.col;
        match ev {
            InputEvent::Char(c) => {
                let len = self.lines[row].as_str().unicode_len();
                let mut new_line = String::from_str(self.lines[row].as_str().substring_char(0, col));
                new_line.push(c);
                let tail = String::from_str(self.lines[row].as_str().substring_char(col, len));
                new_line.append(tail.as_str());
                let new_len = new_line.as_str().unicode_len();
                assert(new_line@ =~= lines0[row0].insert(col0, c));
                self.lines[row] = new_line;
                self.col = col + 1;
                assert(self.view_lines() =~= lines0.update(row0, lines0[row0].insert(col0, c)));
            },
            InputEvent::Enter => {
                let n = self.lines.len();
                assert(row < n);
                let len = self.lines[row].as_str().unicode_len();
                let head = String::from_str(self.lines[row].as_str().substring_char(0, col));
                let tail = String::from_str(self.lines[row].as_str().substring_char(col, len));
                self.lines[row] = head;
                self.lines.insert(row + 1, tail);
                self.row = row + 1;
                self.col = 0;
                assert(self.view_lines() =~= lines0.take(row0) + seq![
                    lines0[row0].take(col0),
                    lines0[row0].skip(col0),
                ] + lines0.skip(row0 + 1));
            },
            InputEvent::Backspace => {
                if col > 0 {
                    let len = self.lines[row].as_str().unicode_len();
                    let mut new_line = String::from_str(
                        self.lines[row].as_str().substring_char(0, col - 1),
                    );
                    let tail = String::from_str(self.lines[row].as_str().substring_char(col, len));
                    new_line.append(tail.as_str());
                    assert(new_line@ =~= lines0[row0].remove(col0 - 1));
                    self.lines[row] = new_line;
                    self.col = col - 1;
                    assert(self.view_lines() =~= lines0.update(
                        row0,
                        lines0[row0].remove(col0 - 1),
                    ));
                } else if row > 0 {
                    let removed = self.lines.remove(row);
                    let prev_len = self.lines[row - 1].as_str().unicode_len();
                    let mut new_line = String::from_str(self.lines[row - 1].as_str());
                    new_line.append(removed.as_str());
                    self.lines[row - 1] = new_line;
                    self.row = row - 1;
                    self.col = prev_len;
                    assert(self.view_lines() =~= lines0.take(row0 - 1) + seq![
                        lines0[row0 - 1] + lines0[row0],
                    ] + lines0.skip(row0 + 1));
                }
            },
            InputEvent::Delete => {
                let len = self.lines[row].as_str().unicode_len();
                if col < len {
                    let mut new_line = String::from_str(
                        self.lines[row].as_str().substring_char(0, col),
                    );
                    let tail = String::from_str(
                        self.lines[row].as_str().substring_char(col + 1, len),
                    );
                    new_line.append(tail.as_str());
                    assert(new_line@ =~= lines0[row0].remove(col0));
                    self.lines[row] = new_line;
                    assert(self.view_lines() =~= lines0.update(row0, lines0[row0].remove(col0)));
                } else if row < self.lines.len() - 1 {
                    let removed = self.lines.remove(row + 1);
                    let mut new_line = String::from_str(self.lines[row].as_str());
                    new_line.append(removed.as_str());
                    self.lines[row] = new_line;
                    assert(self.view_lines() =~= lines0.take(row0) + seq![
                        lines0[row0] + lines0[row0 + 1],
                    ] + lines0.skip(row0 + 2));
                }
            },
            InputEvent::Left => {
                if col > 0 {
                    self.col = col - 1;
                } else if row > 0 {
                    self.row = row - 1;
                    self.col = self.lines[row - 1].as_str().unicode_len();
                }
            },
            InputEvent::Right => {
                let len = self.lines[row].as_str().unicode_len();
                if col < len {
                    self.col = col + 1;
                } else if row < self.lines.len() - 1 {
                    self.row = row + 1;
                    self.col = 0;
                }
            },
            InputEvent::Up => {
                if row > 0 {
                    let target_len = self.lines[row - 1].as_str().unicode_len();
                    self.row = row - 1;
                    self.col = if col <= target_len {
                        col
                    } else {
                        target_len
                    };
                }
            },
            InputEvent::Down => {
                if row < self.lines.len() - 1 {
                    let target_len = self.lines[row + 1].as_str().unicode_len();
                    self.row = row + 1;
                    self.col = if col <= target_len {
                        col
                    } else {
                        target_len
                    };
                }
            },
            InputEvent::Home => {
                self.col = 0;
            },
            InputEvent::End => {
                self.col = self.lines[row].as_str().unicode_len();
            },
            InputEvent::Noop => {},
        }
    }
}

proof fn lemma_joined_take_step(lines: Seq<Seq<char>>, i: int)
    requires
        1 <= i < lines.len(),
    ensures
        joined_text(lines.take(i + 1)) == joined_text(lines.take(i)) + seq![' '] + lines[i],
    decreases i,
{
    if i == 1 {
        assert(lines.take(2) =~= seq![lines[0], lines[1]]);
        assert(lines.take(2).drop_first() =~= seq![lines[1]]);
        assert(lines.take(1) =~= seq![lines[0]]);
        assert(joined_text(seq![lines[1]]) == lines[1]);
    } else {
        lemma_joined_take_step(lines.drop_first(), i - 1);
        assert(lines.take(i + 1).drop_first() =~= lines.drop_first().take(i));
        assert(lines.take(i).drop_first() =~= lines.drop_first().take(i - 1));
        assert(lines.take(i + 1)[0] == lines[0]);
        assert(lines.take(i)[0] == lines[0]);
        assert(lines.drop_first()[i - 1] == lines[i]);
        assert(joined_text(lines.take(i + 1)) == lines[0] + seq![' '] + joined_text(
            lines.drop_first().take(i),
        ));
        assert(joined_text(lines.take(i)) == lines[0] + seq![' '] + joined_text(
            lines.drop_first().take(i - 1),
        ));
        assert(joined_text(lines.take(i + 1)) =~= joined_text(lines.take(i)) + seq![' ']
            + lines[i]);
    }
}

} // verus!
