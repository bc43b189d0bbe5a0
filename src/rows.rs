use vstd::prelude::*;
use crate::render::{expand, expand_tabs};

verus! {

/// The pieces of `s` between line feeds, in order; there is always one more
/// piece than there are line feeds.
pub open spec fn split_at_newlines(s: Seq<char>) -> Seq<Seq<char>>
    decreases s.len(),
{
    if s.len() == 0 {
        seq![Seq::empty()]
    } else {
        let p = split_at_newlines(s.drop_last());
        if s.last() == '\n' {
            p.push(Seq::empty())
        } else {
            p.update(p.len() - 1, p.last().push(s.last()))
        }
    }
}

/// A line that ended in a line feed, without the carriage return before it.
pub open spec fn strip_cr(l: Seq<char>) -> Seq<char> {
    if l.len() > 0 && l.last() == '\r' {
        l.drop_last()
    } else {
        l
    }
}

/// The lines of a text: each piece ended by a line feed, less a carriage
/// return before that feed, then the unterminated rest unless it is empty.
pub open spec fn text_lines(s: Seq<char>) -> Seq<Seq<char>> {
    let parts = split_at_newlines(s);
    let ended = parts.drop_last().map_values(|l: Seq<char>| strip_cr(l));
    if parts.last().len() == 0 {
        ended
    } else {
        ended.push(parts.last())
    }
}

/// One line of the buffer: its text and its cached display form.
pub struct Row {
    pub row_content: Vec<char>,
    pub render: Vec<char>,
}

impl Row {
    /// The cached rendering is the expansion of the text.
    pub open spec fn wf(&self) -> bool {
        self.render@ == expand(self.row_content@)
    }

    /// A line holding `row_content`, rendered at once.
    pub fn new(row_content: Vec<char>) -> (r: Row)
        ensures
            r.row_content@ == row_content@,
            r.wf(),
    {
        let mut row = Row { row_content, render: Vec::new() };
        EditorRows::render_row(&mut row);
        row
    }
}

/// The ordered lines of the loaded text.
pub struct EditorRows {
    pub row_contents: Vec<Row>,
}

impl EditorRows {
    /// Every line carries the rendering of its own text.
    pub open spec fn wf(&self) -> bool {
        forall|i: int| 0 <= i < self.row_contents@.len() ==> (#[trigger] self.row_contents@[i]).wf()
    }

    /// The text of each line.
    pub open spec fn lines(&self) -> Seq<Seq<char>> {
        self.row_contents@.map_values(|r: Row| r.row_content@)
    }

    /// The display form of each line.
    pub open spec fn renders(&self) -> Seq<Seq<char>> {
        self.row_contents@.map_values(|r: Row| r.render@)
    }

    /// A buffer with no lines.
    pub fn new() -> (r: EditorRows)
        ensures
            r.wf(),
            r.lines().len() == 0,
    {
        EditorRows { row_contents: Vec::new() }
    }

    /// A buffer holding `lines` in order, each rendered.
    pub fn from_lines(lines: Vec<Vec<char>>) -> (r: EditorRows)
        ensures
            r.wf(),
            r.lines() == lines@.map_values(|l: Vec<char>| l@),
    {
        let mut row_contents: Vec<Row> = Vec::new();
        let mut lines = lines;
        let ghost all = lines@;
        let n = lines.len();
        let mut i: usize = 0;
        while i < n
            invariant
                n == all.len(),
                i <= n,
                lines@.len() == n,
                forall|j: int| i <= j < n ==> lines@[j]@ == (#[trigger] all[j])@,
                row_contents@.len() == i,
                forall|j: int| 0 <= j < i ==> (#[trigger] row_contents@[j]).wf(),
                forall|j: int| 0 <= j < i ==> (#[trigger] row_contents@[j]).row_content@ == all[j]@,
            decreases n - i,
        {
            let mut line: Vec<char> = Vec::new();
            std::mem::swap(&mut line, &mut lines[i]);
            row_contents.push(Row::new(line));
            i = i + 1;
        }
        let r = EditorRows { row_contents };
        assert(r.lines() =~= all.map_values(|l: Vec<char>| l@));
        r
    }

    /// A buffer holding the lines of `text`, each rendered.
    pub fn from_text(text: &Vec<char>) -> (r: EditorRows)
        ensures
            r.wf(),
            r.lines() == text_lines(text@),
    {
        let mut row_contents: Vec<Row> = Vec::new();
        let mut cur: Vec<char> = Vec::new();
        let n = text.len();
        let mut i: usize = 0;
        while i < n
            invariant
                n == text@.len(),
                i <= n,
                split_at_newlines(text@.take(i as int)).len() == row_contents@.len() + 1,
                split_at_newlines(text@.take(i as int)).last() == cur@,
                forall|j: int| 0 <= j < row_contents@.len() ==> (#[trigger] row_contents@[j]).wf(),
                forall|j: int|
                    0 <= j < row_contents@.len() ==> (#[trigger] row_contents@[j]).row_content@ == strip_cr(
                        split_at_newlines(text@.take(i as int))[j],
                    ),
            decreases n - i,
        {
            let ghost before = split_at_newlines(text@.take(i as int));
            assert(text@.take(i + 1).drop_last() =~= text@.take(i as int));
            let c = text[i];
            if c == '\n' {
                let mut line: Vec<char> = Vec::new();
                std::mem::swap(&mut line, &mut cur);
                let ghost raw = line@;
                if line.len() > 0 && line[line.len() - 1] == '\r' {
                    line.pop();
                }
                assert(line@ =~= strip_cr(raw));
                row_contents.push(Row::new(line));
            } else {
                cur.push(c);
            }
            i = i + 1;
            let ghost after = split_at_newlines(text@.take(i as int));
            assert(forall|j: int| 0 <= j < row_contents@.len() ==> after[j] == before[j]);
        }
        assert(text@.take(n as int) =~= text@);
        if cur.len() > 0 {
            row_contents.push(Row::new(cur));
        }
        let r = EditorRows { row_contents };
        assert(r.lines() =~= text_lines(text@));
        r
    }

    /// The display form of line `at`.
    pub fn get_render(&self, at: usize) -> (r: &Vec<char>)
        requires
            at < self.row_contents@.len(),
        ensures
            r@ == self.renders()[at as int],
    {
        &self.row_contents[at].render
    }

    /// Line `at`.
    pub fn get_editor_row(&self, at: usize) -> (r: &Row)
        requires
            at < self.row_contents@.len(),
        ensures
            *r == self.row_contents@[at as int],
    {
        &self.row_contents[at]
    }

    /// Number of lines.
    pub fn number_of_rows(&self) -> (r: usize)
        ensures
            r == self.lines().len(),
    {
        self.row_contents.len()
    }

    /// The text of line `at`.
    pub fn get_row(&self, at: usize) -> (r: &Vec<char>)
        requires
            at < self.row_contents@.len(),
        ensures
            r@ == self.lines()[at as int],
    {
        &self.row_contents[at].row_content
    }

    /// Recomputes the display form of `row` from its text.
    pub fn render_row(row: &mut Row)
        ensures
            final(row).row_content == old(row).row_content,
            final(row).wf(),
    {
        row.render = expand_tabs(&row.row_content);
    }
}

} // verus!
