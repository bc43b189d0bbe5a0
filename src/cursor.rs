use vstd::prelude::*;
use crate::render::{render_width, expand, rendered_column};
use crate::rows::{EditorRows, Row};

verus! {

/// A cursor movement command.
#[derive(Clone, Copy, PartialEq, Eq, Structural, Debug)]
pub enum Direction {
    Up,
    Down,
    Left,
    Right,
    Home,
    End,
    PageUp,
    PageDown,
}

/// Column `x` limited to the length of line `y`; zero past the last line.
pub open spec fn clamp_col(lines: Seq<Seq<char>>, y: nat, x: nat) -> nat {
    if y < lines.len() {
        if x <= lines[y as int].len() {
            x
        } else {
            lines[y as int].len()
        }
    } else {
        0
    }
}

/// A cursor position `(row, col)` that the buffer `lines` admits.
pub open spec fn position_valid(lines: Seq<Seq<char>>, pos: (nat, nat)) -> bool {
    &&& pos.0 <= lines.len()
    &&& pos.0 < lines.len() ==> pos.1 <= lines[pos.0 as int].len()
    &&& pos.0 == lines.len() ==> pos.1 == 0
}

/// Where a single movement takes the cursor at `pos = (row, col)`, before the
/// column is clamped to the new line.
pub open spec fn raw_step(lines: Seq<Seq<char>>, d: Direction, pos: (nat, nat)) -> (nat, nat) {
    let (y, x) = pos;
    let n = lines.len();
    match d {
        Direction::Up => (if y > 0 { (y - 1) as nat } else { 0 }, x),
        Direction::Down => (if y < n { y + 1 } else { y }, x),
        Direction::Left => {
            if x > 0 {
                (y, (x - 1) as nat)
            } else if y > 0 {
                ((y - 1) as nat, lines[y - 1].len())
            } else {
                (y, x)
            }
        },
        Direction::Right => {
            if y < n && x < lines[y as int].len() {
                (y, x + 1)
            } else if y < n && x == lines[y as int].len() {
                (y + 1, 0)
            } else {
                (y, x)
            }
        },
        Direction::Home => (y, 0),
        Direction::End => (y, if y < n { lines[y as int].len() } else { 0 }),
        Direction::PageUp => (y, x),
        Direction::PageDown => (y, x),
    }
}

/// A single movement followed by clamping the column.
pub open spec fn step(lines: Seq<Seq<char>>, d: Direction, pos: (nat, nat)) -> (nat, nat) {
    let p = raw_step(lines, d, pos);
    (p.0, clamp_col(lines, p.0, p.1))
}

/// `count` single movements in direction `d`.
pub open spec fn repeat_step(lines: Seq<Seq<char>>, d: Direction, pos: (nat, nat), count: nat) -> (nat, nat)
    decreases count,
{
    if count == 0 {
        pos
    } else {
        step(lines, d, repeat_step(lines, d, pos, (count - 1) as nat))
    }
}

/// Where command `d` takes the cursor; a page move is `height` line moves.
pub open spec fn moved(lines: Seq<Seq<char>>, height: nat, d: Direction, pos: (nat, nat)) -> (nat, nat) {
    match d {
        Direction::PageUp => repeat_step(lines, Direction::Up, pos, height),
        Direction::PageDown => repeat_step(lines, Direction::Down, pos, height),
        _ => step(lines, d, pos),
    }
}

/// Where the commands `ds`, applied in order, take the cursor.
pub open spec fn moved_all(lines: Seq<Seq<char>>, height: nat, ds: Seq<Direction>, pos: (nat, nat)) -> (nat, nat)
    decreases ds.len(),
{
    if ds.len() == 0 {
        pos
    } else {
        moved(lines, height, ds.last(), moved_all(lines, height, ds.drop_last(), pos))
    }
}

/// Rendered column of the cursor: zero past the last line.
pub open spec fn cursor_render_x(lines: Seq<Seq<char>>, pos: (nat, nat)) -> nat {
    if pos.0 < lines.len() {
        render_width(lines[pos.0 as int].take(pos.1 as int))
    } else {
        0
    }
}

/// The scroll offset that keeps `pos` inside a window of `size` cells,
/// moving the window as little as possible from `offset`.
pub open spec fn scroll_offset(offset: nat, pos: nat, size: nat) -> nat {
    let o = if offset <= pos { offset } else { pos };
    if pos >= o + size {
        (pos - size + 1) as nat
    } else {
        o
    }
}

/// A single movement from a valid position lands on a valid position.
pub proof fn lemma_step_keeps_valid(lines: Seq<Seq<char>>, d: Direction, pos: (nat, nat))
    requires
        position_valid(lines, pos),
    ensures
        position_valid(lines, step(lines, d, pos)),
{
}

/// Any command from a valid position lands on a valid position.
pub proof fn lemma_moved_keeps_valid(lines: Seq<Seq<char>>, height: nat, d: Direction, pos: (nat, nat))
    requires
        position_valid(lines, pos),
    ensures
        position_valid(lines, moved(lines, height, d, pos)),
{
    match d {
        Direction::PageUp => lemma_repeat_keeps_valid(lines, Direction::Up, pos, height),
        Direction::PageDown => lemma_repeat_keeps_valid(lines, Direction::Down, pos, height),
        _ => lemma_step_keeps_valid(lines, d, pos),
    }
}

/// Repeated movements from a valid position land on a valid position.
pub proof fn lemma_repeat_keeps_valid(lines: Seq<Seq<char>>, d: Direction, pos: (nat, nat), count: nat)
    requires
        position_valid(lines, pos),
    ensures
        position_valid(lines, repeat_step(lines, d, pos, count)),
    decreases count,
{
    if count > 0 {
        lemma_repeat_keeps_valid(lines, d, pos, (count - 1) as nat);
        lemma_step_keeps_valid(lines, d, repeat_step(lines, d, pos, (count - 1) as nat));
    }
}

/// After any sequence of commands from a valid position, the cursor row is at
/// most the number of lines, and on a line the column is at most its length.
pub proof fn lemma_moves_keep_cursor_valid(lines: Seq<Seq<char>>, height: nat, ds: Seq<Direction>, pos: (nat, nat))
    requires
        position_valid(lines, pos),
    ensures
        position_valid(lines, moved_all(lines, height, ds, pos)),
    decreases ds.len(),
{
    if ds.len() > 0 {
        lemma_moves_keep_cursor_valid(lines, height, ds.drop_last(), pos);
        lemma_moved_keeps_valid(lines, height, ds.last(), moved_all(lines, height, ds.drop_last(), pos));
    }
}

/// Cursor position, viewport size and scroll offsets of a session.
pub struct CursorController {
    pub cursor_x: usize,
    pub cursor_y: usize,
    pub screen_columns: usize,
    pub screen_rows: usize,
    pub row_offset: usize,
    pub column_offset: usize,
    pub render_x: usize,
}

impl CursorController {
    /// The viewport is at least one cell wide and one cell high.
    pub open spec fn wf(&self) -> bool {
        self.screen_columns > 0 && self.screen_rows > 0
    }

    /// The cursor position as `(row, col)`.
    pub open spec fn pos(&self) -> (nat, nat) {
        (self.cursor_y as nat, self.cursor_x as nat)
    }

    /// The cursor stands on a position the buffer admits.
    pub open spec fn valid_for(&self, rows: &EditorRows) -> bool {
        position_valid(rows.lines(), self.pos())
    }

    /// `after` is `before` with its rendered column and both offsets recomputed.
    pub open spec fn scrolled(before: CursorController, after: CursorController, lines: Seq<Seq<char>>) -> bool {
        let rx = cursor_render_x(lines, before.pos());
        &&& after.cursor_x == before.cursor_x
        &&& after.cursor_y == before.cursor_y
        &&& after.screen_columns == before.screen_columns
        &&& after.screen_rows == before.screen_rows
        &&& after.render_x == rx
        &&& after.row_offset == scroll_offset(before.row_offset as nat, before.cursor_y as nat, before.screen_rows as nat)
        &&& after.column_offset == scroll_offset(before.column_offset as nat, rx, before.screen_columns as nat)
    }

    /// A cursor at the origin of a viewport of `win_size = (columns, rows)`.
    pub fn new(win_size: (usize, usize)) -> (r: CursorController)
        requires
            win_size.0 > 0,
            win_size.1 > 0,
        ensures
            r.wf(),
            r.cursor_x == 0,
            r.cursor_y == 0,
            r.screen_columns == win_size.0,
            r.screen_rows == win_size.1,
            r.row_offset == 0,
            r.column_offset == 0,
            r.render_x == 0,
    {
        CursorController {
            cursor_x: 0,
            cursor_y: 0,
            screen_columns: win_size.0,
            screen_rows: win_size.1,
            row_offset: 0,
            column_offset: 0,
            render_x: 0,
        }
    }

    /// One line or column movement, with the column clamped afterwards.
    fn step_cursor(&mut self, direction: Direction, editor_rows: &EditorRows)
        requires
            old(self).valid_for(editor_rows),
            editor_rows.wf(),
        ensures
            final(self).pos() == step(editor_rows.lines(), direction, old(self).pos()),
            final(self).valid_for(editor_rows),
            final(self).screen_columns == old(self).screen_columns,
            final(self).screen_rows == old(self).screen_rows,
            final(self).row_offset == old(self).row_offset,
            final(self).column_offset == old(self).column_offset,
            final(self).render_x == old(self).render_x,
    {
        let ghost lines = editor_rows.lines();
        let number_of_rows = editor_rows.number_of_rows();
        match direction {
            Direction::Up => {
                if self.cursor_y > 0 {
                    self.cursor_y = self.cursor_y - 1;
                }
            },
            Direction::Down => {
                if self.cursor_y < number_of_rows {
                    self.cursor_y = self.cursor_y + 1;
                }
            },
            Direction::Left => {
                if self.cursor_x != 0 {
                    self.cursor_x = self.cursor_x - 1;
                } else if self.cursor_y > 0 {
                    self.cursor_y = self.cursor_y - 1;
                    self.cursor_x = editor_rows.get_row(self.cursor_y).len();
                }
            },
            Direction::Right => {
                if self.cursor_y < number_of_rows {
                    let len = editor_rows.get_row(self.cursor_y).len();
                    if self.cursor_x < len {
                        self.cursor_x = self.cursor_x + 1;
                    } else if self.cursor_x == len {
                        self.cursor_y = self.cursor_y + 1;
                        self.cursor_x = 0;
                    }
                }
            },
            Direction::Home => {
                self.cursor_x = 0;
            },
            Direction::End => {
                if self.cursor_y < number_of_rows {
                    self.cursor_x = editor_rows.get_row(self.cursor_y).len();
                } else {
                    self.cursor_x = 0;
                }
            },
            Direction::PageUp => {},
            Direction::PageDown => {},
        }
        let row_len = if self.cursor_y < number_of_rows {
            editor_rows.get_row(self.cursor_y).len()
        } else {
            0
        };
        if self.cursor_x > row_len {
            self.cursor_x = row_len;
        }
    }

    /// Applies command `direction`; a page command moves `screen_rows` lines.
    pub fn move_cursor(&mut self, direction: Direction, editor_rows: &EditorRows)
        requires
            old(self).valid_for(editor_rows),
            editor_rows.wf(),
        ensures
            final(self).pos() == moved(editor_rows.lines(), old(self).screen_rows as nat, direction, old(self).pos()),
            final(self).valid_for(editor_rows),
            final(self).screen_columns == old(self).screen_columns,
            final(self).screen_rows == old(self).screen_rows,
            final(self).row_offset == old(self).row_offset,
            final(self).column_offset == old(self).column_offset,
            final(self).render_x == old(self).render_x,
    {
        match direction {
            Direction::PageUp | Direction::PageDown => {
                let single = if direction == Direction::PageUp {
                    Direction::Up
                } else {
                    Direction::Down
                };
                let ghost start = self.pos();
                let n = self.screen_rows;
                let mut i: usize = 0;
                while i < n
                    invariant
                        i <= n,
                        n == old(self).screen_rows,
                        single == (if direction == Direction::PageUp { Direction::Up } else { Direction::Down }),
                        start == old(self).pos(),
                        self.pos() == repeat_step(editor_rows.lines(), single, start, i as nat),
                        self.valid_for(editor_rows),
                        editor_rows.wf(),
                        self.screen_columns == old(self).screen_columns,
                        self.screen_rows == old(self).screen_rows,
                        self.row_offset == old(self).row_offset,
                        self.column_offset == old(self).column_offset,
                        self.render_x == old(self).render_x,
                    decreases n - i,
                {
                    self.step_cursor(single, editor_rows);
                    i = i + 1;
                }
            },
            _ => {
                self.step_cursor(direction, editor_rows);
            },
        }
    }

    /// Recomputes the rendered column of the cursor and moves the offsets just
    /// enough to keep the cursor inside the viewport.
    pub fn scroll(&mut self, editor_rows: &EditorRows)
        requires
            old(self).wf(),
            old(self).valid_for(editor_rows),
            editor_rows.wf(),
        ensures
            CursorController::scrolled(*old(self), *final(self), editor_rows.lines()),
            final(self).wf(),
            final(self).valid_for(editor_rows),
            final(self).row_offset <= final(self).cursor_y < final(self).row_offset + final(self).screen_rows,
            final(self).column_offset <= final(self).render_x < final(self).column_offset + final(self).screen_columns,
    {
        self.render_x = 0;
        if self.cursor_y < editor_rows.number_of_rows() {
            self.render_x = self.get_render_x(editor_rows.get_editor_row(self.cursor_y));
        }
        if self.cursor_y < self.row_offset {
            self.row_offset = self.cursor_y;
        }
        if self.cursor_y - self.row_offset >= self.screen_rows {
            self.row_offset = self.cursor_y - self.screen_rows + 1;
        }
        if self.render_x < self.column_offset {
            self.column_offset = self.render_x;
        }
        if self.render_x - self.column_offset >= self.screen_columns {
            self.column_offset = self.render_x - self.screen_columns + 1;
        }
    }

    /// Rendered column of the cursor within `row`.
    pub fn get_render_x(&self, row: &Row) -> (r: usize)
        requires
            row.wf(),
            self.cursor_x <= row.row_content@.len(),
        ensures
            r == render_width(row.row_content@.take(self.cursor_x as int)),
    {
        // the cached rendering is held in memory, so its length fits in a usize
        let rendered_len = row.render.len();
        assert(rendered_len == expand(row.row_content@).len());
        rendered_column(&row.row_content, self.cursor_x)
    }
}

/// Scrolling a second time, with no move in between, changes nothing.
pub proof fn lemma_scroll_idempotent(
    a: CursorController,
    b: CursorController,
    c: CursorController,
    lines: Seq<Seq<char>>,
)
    requires
        a.wf(),
        CursorController::scrolled(a, b, lines),
        CursorController::scrolled(b, c, lines),
    ensures
        c == b,
{
}

} // verus!
