use vstd::prelude::*;
use crate::cursor::{CursorController, Direction, moved};
use crate::render::spaces;
use crate::rows::EditorRows;

verus! {

/// The greeting shown on an empty buffer.
pub open spec fn banner() -> Seq<char> {
    seq![
        'T', 'e', 'x', 't', ' ', 'E', 'd', 'i', 't', 'o', 'r', ' ', '-', '-', '-', ' ',
        'V', 'e', 'r', 's', 'i', 'o', 'n', ' ', '1', ' ',
    ]
}

/// The banner row: the banner cut to `width`, centred, with a `~` at the
/// start of its left padding when there is any.
pub open spec fn banner_row(width: nat) -> Seq<char> {
    let b = if banner().len() > width { banner().take(width as int) } else { banner() };
    let padding = ((width - b.len()) as nat) / 2;
    if padding > 0 {
        seq!['~'] + spaces((padding - 1) as nat) + b
    } else {
        b
    }
}

/// The visible part of a rendered line: at most `width` characters from
/// `column_offset` on, nothing when the line ends before it.
pub open spec fn visible_slice(r: Seq<char>, column_offset: nat, width: nat) -> Seq<char> {
    if column_offset >= r.len() {
        Seq::empty()
    } else {
        let len = if r.len() - column_offset < width { (r.len() - column_offset) as nat } else { width };
        r.subrange(column_offset as int, (column_offset + len) as int)
    }
}

/// Screen row `i` of a viewport of `width` by `height` showing the rendered
/// lines `renders` from line `row_offset` and column `column_offset`.
pub open spec fn screen_row(
    renders: Seq<Seq<char>>,
    row_offset: nat,
    column_offset: nat,
    width: nat,
    height: nat,
    i: nat,
) -> Seq<char> {
    let file_row = i + row_offset;
    if file_row >= renders.len() {
        if renders.len() == 0 && i == height / 3 {
            banner_row(width)
        } else {
            seq!['~']
        }
    } else {
        visible_slice(renders[file_row as int], column_offset, width)
    }
}

/// What one refresh puts on the screen: the rows, top to bottom, and where
/// the cursor is shown, in screen cells.
pub struct Frame {
    pub rows: Vec<Vec<char>>,
    pub cursor_col: usize,
    pub cursor_row: usize,
}

/// A viewing session: the buffer, the cursor and the viewport size.
pub struct Output {
    pub win_size: (usize, usize),
    pub cursor_controller: CursorController,
    pub editor_rows: EditorRows,
}

impl Output {
    /// The session is consistent: sizes agree, lines are rendered, and the
    /// cursor stands on a valid position.
    pub open spec fn wf(&self) -> bool {
        &&& self.cursor_controller.wf()
        &&& self.editor_rows.wf()
        &&& self.cursor_controller.valid_for(&self.editor_rows)
        &&& self.win_size.0 == self.cursor_controller.screen_columns
        &&& self.win_size.1 == self.cursor_controller.screen_rows
    }

    /// The rows this session shows for its current offsets.
    pub open spec fn screen(&self) -> Seq<Seq<char>> {
        let c = self.cursor_controller;
        Seq::new(
            c.screen_rows as nat,
            |i: int|
                screen_row(
                    self.editor_rows.renders(),
                    c.row_offset as nat,
                    c.column_offset as nat,
                    c.screen_columns as nat,
                    c.screen_rows as nat,
                    i as nat,
                ),
        )
    }

    /// A session over `editor_rows` in a viewport of `win_size = (columns, rows)`,
    /// with the cursor at the origin.
    pub fn new(win_size: (usize, usize), editor_rows: EditorRows) -> (r: Output)
        requires
            win_size.0 > 0,
            win_size.1 > 0,
            editor_rows.wf(),
        ensures
            r.wf(),
            r.win_size == win_size,
            r.editor_rows == editor_rows,
            r.cursor_controller.cursor_x == 0,
            r.cursor_controller.cursor_y == 0,
            r.cursor_controller.row_offset == 0,
            r.cursor_controller.column_offset == 0,
            r.cursor_controller.render_x == 0,
    {
        Output { win_size, cursor_controller: CursorController::new(win_size), editor_rows }
    }

    /// The banner row for the current width.
    fn welcome_row(&self) -> (r: Vec<char>)
        requires
            self.wf(),
        ensures
            r@ == banner_row(self.win_size.0 as nat),
    {
        let screen_columns = self.win_size.0;
        let mut welcome: Vec<char> = vec![
            'T', 'e', 'x', 't', ' ', 'E', 'd', 'i', 't', 'o', 'r', ' ', '-', '-', '-', ' ',
            'V', 'e', 'r', 's', 'i', 'o', 'n', ' ', '1', ' ',
        ];
        assert(welcome@ =~= banner());
        if welcome.len() > screen_columns {
            welcome.truncate(screen_columns);
        }
        let ghost b = welcome@;
        let mut padding = (screen_columns - welcome.len()) / 2;
        let mut out: Vec<char> = Vec::new();
        if padding != 0 {
            out.push('~');
            padding = padding - 1;
        }
        let ghost start = out@;
        let mut k: usize = 0;
        while k < padding
            invariant
                k <= padding,
                out@ =~= start + spaces(k as nat),
            decreases padding - k,
        {
            out.push(' ');
            k = k + 1;
        }
        let mut j: usize = 0;
        let ghost before = out@;
        while j < welcome.len()
            invariant
                j <= welcome@.len(),
                welcome@ == b,
                out@ =~= before + b.take(j as int),
            decreases welcome@.len() - j,
        {
            out.push(welcome[j]);
            j = j + 1;
        }
        assert(b.take(b.len() as int) =~= b);
        out
    }

    /// The rows currently visible, top to bottom, without line breaks.
    pub fn draw_rows(&self) -> (r: Vec<Vec<char>>)
        requires
            self.wf(),
        ensures
            r@.len() == self.win_size.1,
            forall|i: int| 0 <= i < r@.len() ==> (#[trigger] r@[i])@ == self.screen()[i],
    {
        let screen_rows = self.win_size.1;
        let screen_columns = self.win_size.0;
        let number_of_rows = self.editor_rows.number_of_rows();
        let row_offset = self.cursor_controller.row_offset;
        let column_offset = self.cursor_controller.column_offset;
        let mut out: Vec<Vec<char>> = Vec::new();
        let mut i: usize = 0;
        while i < screen_rows
            invariant
                self.wf(),
                screen_rows == self.win_size.1,
                screen_columns == self.win_size.0,
                number_of_rows == self.editor_rows.lines().len(),
                row_offset == self.cursor_controller.row_offset,
                column_offset == self.cursor_controller.column_offset,
                i <= screen_rows,
                out@.len() == i,
                forall|j: int| 0 <= j < i ==> (#[trigger] out@[j])@ == self.screen()[j],
            decreases screen_rows - i,
        {
            let mut line: Vec<char> = Vec::new();
            if row_offset >= number_of_rows || i >= number_of_rows - row_offset {
                if number_of_rows == 0 && i == screen_rows / 3 {
                    line = self.welcome_row();
                } else {
                    line.push('~');
                }
            } else {
                let file_row = i + row_offset;
                let row = self.editor_rows.get_render(file_row);
                let row_len = row.len();
                let avail = if row_len > column_offset { row_len - column_offset } else { 0 };
                let len = if avail < screen_columns { avail } else { screen_columns };
                let start = if len == 0 { 0 } else { column_offset };
                let mut j: usize = 0;
                while j < len
                    invariant
                        j <= len,
                        row_len == row@.len(),
                        start + len <= row_len,
                        line@ =~= row@.subrange(start as int, start + j),
                    decreases len - j,
                {
                    line.push(row[start + j]);
                    j = j + 1;
                }
            }
            assert(line@ =~= self.screen()[i as int]);
            out.push(line);
            i = i + 1;
        }
        out
    }

    /// Recomputes the scroll offsets, then composes the frame: the visible rows
    /// and the cursor's place relative to the viewport.
    pub fn refresh_screen(&mut self) -> (r: Frame)
        requires
            old(self).wf(),
        ensures
            final(self).wf(),
            final(self).win_size == old(self).win_size,
            final(self).editor_rows == old(self).editor_rows,
            CursorController::scrolled(
                old(self).cursor_controller,
                final(self).cursor_controller,
                old(self).editor_rows.lines(),
            ),
            r.rows@.len() == final(self).win_size.1,
            forall|i: int| 0 <= i < r.rows@.len() ==> (#[trigger] r.rows@[i])@ == final(self).screen()[i],
            r.cursor_col == final(self).cursor_controller.render_x - final(self).cursor_controller.column_offset,
            r.cursor_row == final(self).cursor_controller.cursor_y - final(self).cursor_controller.row_offset,
    {
        self.cursor_controller.scroll(&self.editor_rows);
        let rows = self.draw_rows();
        let cursor_col = self.cursor_controller.render_x - self.cursor_controller.column_offset;
        let cursor_row = self.cursor_controller.cursor_y - self.cursor_controller.row_offset;
        Frame { rows, cursor_col, cursor_row }
    }

    /// Applies command `direction` to the cursor.
    pub fn move_cursor(&mut self, direction: Direction)
        requires
            old(self).wf(),
        ensures
            final(self).wf(),
            final(self).win_size == old(self).win_size,
            final(self).editor_rows == old(self).editor_rows,
            final(self).cursor_controller.pos() == moved(
                old(self).editor_rows.lines(),
                old(self).win_size.1 as nat,
                direction,
                old(self).cursor_controller.pos(),
            ),
            final(self).cursor_controller.row_offset == old(self).cursor_controller.row_offset,
            final(self).cursor_controller.column_offset == old(self).cursor_controller.column_offset,
    {
        self.cursor_controller.move_cursor(direction, &self.editor_rows);
    }
}

} // verus!
