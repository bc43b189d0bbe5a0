use text_viewer::cursor::{CursorController, Direction};
use text_viewer::frame::Output;
use text_viewer::render::{expand_tabs, rendered_column, TAB_STOP};
use text_viewer::rows::{EditorRows, Row};

fn chars(s: &str) -> Vec<char> {
    s.chars().collect()
}

fn text(v: &[char]) -> String {
    v.iter().collect()
}

fn buffer(lines: &[&str]) -> EditorRows {
    EditorRows::from_lines(lines.iter().map(|l| chars(l)).collect())
}

#[test]
fn tab_expands_to_next_stop() {
    let rows = buffer(&["a\tb", "hello"]);
    assert_eq!(TAB_STOP, 8);
    assert_eq!(text(rows.get_render(0)), "a       b");
    assert_eq!(text(rows.get_render(1)), "hello");
    let mut c = CursorController::new((80, 24));
    c.cursor_x = 2;
    assert_eq!(c.get_render_x(rows.get_editor_row(0)), 8);
    c.cursor_x = 3;
    assert_eq!(c.get_render_x(rows.get_editor_row(0)), 9);
}

#[test]
fn tab_at_stop_emits_full_width() {
    assert_eq!(text(&expand_tabs(&chars("\t"))), "        ");
    assert_eq!(text(&expand_tabs(&chars("12345678\tx"))), "12345678        x");
    assert_eq!(text(&expand_tabs(&chars("1234567\tx"))), "1234567 x");
    assert_eq!(text(&expand_tabs(&chars("\t\t"))).len(), 16);
    assert!(expand_tabs(&Vec::new()).is_empty());
}

#[test]
fn render_x_agrees_with_expansion() {
    let line = chars("ab\tc\t\tdé\tz");
    for k in 0..=line.len() {
        let prefix: Vec<char> = line[..k].to_vec();
        assert_eq!(rendered_column(&line, k), expand_tabs(&prefix).len());
    }
}

#[test]
fn tab_free_line_is_unchanged() {
    let line = chars("plain text, no tabs");
    assert_eq!(expand_tabs(&line), line);
    for k in 0..=line.len() {
        assert_eq!(rendered_column(&line, k), k);
    }
}

#[test]
fn row_new_renders() {
    let row = Row::new(chars("x\ty"));
    assert_eq!(text(&row.render), "x       y");
    let mut row = Row { row_content: chars("\t"), render: Vec::new() };
    EditorRows::render_row(&mut row);
    assert_eq!(text(&row.render), "        ");
}

#[test]
fn from_text_splits_lines() {
    let rows = EditorRows::from_text(&chars("one\r\ntwo\n\nthree"));
    assert_eq!(rows.number_of_rows(), 4);
    assert_eq!(text(rows.get_row(0)), "one");
    assert_eq!(text(rows.get_row(1)), "two");
    assert_eq!(text(rows.get_row(2)), "");
    assert_eq!(text(rows.get_row(3)), "three");
    let rows = EditorRows::from_text(&chars("a\tb\n"));
    assert_eq!(rows.number_of_rows(), 1);
    assert_eq!(text(rows.get_render(0)), "a       b");
    assert_eq!(EditorRows::from_text(&Vec::new()).number_of_rows(), 0);
    assert_eq!(EditorRows::new().number_of_rows(), 0);
}

#[test]
fn left_at_origin_stays() {
    let rows = buffer(&["abc", "hello"]);
    let mut c = CursorController::new((80, 24));
    c.move_cursor(Direction::Left, &rows);
    assert_eq!((c.cursor_y, c.cursor_x), (0, 0));
}

#[test]
fn right_at_end_of_line_wraps() {
    let rows = buffer(&["abc", "hello"]);
    let mut c = CursorController::new((80, 24));
    c.cursor_x = 3;
    c.move_cursor(Direction::Right, &rows);
    assert_eq!((c.cursor_y, c.cursor_x), (1, 0));
}

#[test]
fn left_at_line_start_goes_to_previous_end() {
    let rows = buffer(&["a\tb", "hello"]);
    let mut c = CursorController::new((80, 24));
    c.cursor_y = 1;
    c.move_cursor(Direction::Left, &rows);
    assert_eq!((c.cursor_y, c.cursor_x), (0, 3));
}

#[test]
fn vertical_moves_clamp_column() {
    let rows = buffer(&["hello world", "hi", ""]);
    let mut c = CursorController::new((80, 24));
    c.move_cursor(Direction::End, &rows);
    assert_eq!(c.cursor_x, 11);
    c.move_cursor(Direction::Down, &rows);
    assert_eq!((c.cursor_y, c.cursor_x), (1, 2));
    c.move_cursor(Direction::Down, &rows);
    assert_eq!((c.cursor_y, c.cursor_x), (2, 0));
    c.move_cursor(Direction::Down, &rows);
    assert_eq!((c.cursor_y, c.cursor_x), (3, 0));
    c.move_cursor(Direction::Down, &rows);
    assert_eq!((c.cursor_y, c.cursor_x), (3, 0));
    c.move_cursor(Direction::Up, &rows);
    c.move_cursor(Direction::Up, &rows);
    c.move_cursor(Direction::End, &rows);
    assert_eq!((c.cursor_y, c.cursor_x), (1, 2));
    c.move_cursor(Direction::Home, &rows);
    assert_eq!(c.cursor_x, 0);
    c.move_cursor(Direction::Up, &rows);
    c.move_cursor(Direction::Up, &rows);
    assert_eq!((c.cursor_y, c.cursor_x), (0, 0));
}

#[test]
fn page_moves_go_by_viewport_height() {
    let lines: Vec<String> = (0..10).map(|i| format!("line {}", i)).collect();
    let refs: Vec<&str> = lines.iter().map(|s| s.as_str()).collect();
    let rows = buffer(&refs);
    let mut c = CursorController::new((20, 4));
    c.move_cursor(Direction::PageDown, &rows);
    assert_eq!(c.cursor_y, 4);
    c.move_cursor(Direction::PageDown, &rows);
    c.move_cursor(Direction::PageDown, &rows);
    assert_eq!(c.cursor_y, 10);
    c.move_cursor(Direction::PageUp, &rows);
    assert_eq!(c.cursor_y, 6);
}

#[test]
fn any_moves_keep_cursor_valid() {
    let rows = buffer(&["a\tbc", "", "xyz", "hello world"]);
    let dirs = [
        Direction::Right, Direction::End, Direction::Right, Direction::Down, Direction::End,
        Direction::Down, Direction::Left, Direction::PageDown, Direction::Right, Direction::Up,
        Direction::End, Direction::PageUp, Direction::Left, Direction::Home, Direction::Down,
    ];
    let mut c = CursorController::new((5, 2));
    for d in dirs.iter() {
        c.move_cursor(*d, &rows);
        let n = rows.number_of_rows();
        assert!(c.cursor_y <= n);
        if c.cursor_y < n {
            assert!(c.cursor_x <= rows.get_row(c.cursor_y).len());
        } else {
            assert_eq!(c.cursor_x, 0);
        }
    }
}

#[test]
fn scroll_keeps_cursor_visible_and_is_idempotent() {
    let lines: Vec<String> = (0..30).map(|i| format!("{}\tcolumn text {}", i, "x".repeat(i))).collect();
    let refs: Vec<&str> = lines.iter().map(|s| s.as_str()).collect();
    let rows = buffer(&refs);
    let mut c = CursorController::new((10, 5));
    for _ in 0..12 {
        c.move_cursor(Direction::Down, &rows);
    }
    c.move_cursor(Direction::End, &rows);
    c.scroll(&rows);
    assert_eq!(c.row_offset, 8);
    assert_eq!(c.render_x, 8 + 12 + 12);
    assert_eq!(c.column_offset, c.render_x - 10 + 1);
    assert!(c.row_offset <= c.cursor_y && c.cursor_y <= c.row_offset + 5 - 1);
    assert!(c.column_offset <= c.render_x && c.render_x <= c.column_offset + 10 - 1);
    let (ro, co, rx) = (c.row_offset, c.column_offset, c.render_x);
    c.scroll(&rows);
    assert_eq!((c.row_offset, c.column_offset, c.render_x), (ro, co, rx));
    c.move_cursor(Direction::Home, &rows);
    c.move_cursor(Direction::PageUp, &rows);
    c.move_cursor(Direction::PageUp, &rows);
    c.scroll(&rows);
    assert_eq!((c.cursor_y, c.row_offset, c.column_offset), (2, 2, 0));
}

#[test]
fn empty_buffer_shows_banner() {
    let mut out = Output::new((80, 24), EditorRows::new());
    let frame = out.refresh_screen();
    assert_eq!(frame.rows.len(), 24);
    let banner = "Text Editor --- Version 1 ";
    let pad = (80 - banner.len()) / 2;
    let expected = format!("~{}{}", " ".repeat(pad - 1), banner);
    for (i, row) in frame.rows.iter().enumerate() {
        if i == 8 {
            assert_eq!(text(row), expected);
        } else {
            assert_eq!(text(row), "~");
        }
    }
    assert_eq!((frame.cursor_col, frame.cursor_row), (0, 0));
}

#[test]
fn narrow_banner_is_truncated() {
    let mut out = Output::new((10, 3), EditorRows::new());
    let frame = out.refresh_screen();
    assert_eq!(text(&frame.rows[1]), "Text Edito");
    let mut out = Output::new((27, 3), EditorRows::new());
    let frame = out.refresh_screen();
    assert_eq!(text(&frame.rows[1]), "Text Editor --- Version 1 ");
    let mut out = Output::new((28, 3), EditorRows::new());
    let frame = out.refresh_screen();
    assert_eq!(text(&frame.rows[1]), "~Text Editor --- Version 1 ");
}

#[test]
fn frame_slices_rendered_lines() {
    let rows = buffer(&["a\tb", "hello world", "hi"]);
    let mut out = Output::new((4, 5), rows);
    out.move_cursor(Direction::Down);
    out.move_cursor(Direction::End);
    let frame = out.refresh_screen();
    assert_eq!(out.cursor_controller.column_offset, 8);
    let got: Vec<String> = frame.rows.iter().map(|r| text(r)).collect();
    assert_eq!(got, vec!["b", "rld", "", "~", "~"]);
    assert_eq!((frame.cursor_col, frame.cursor_row), (3, 1));
}
