use termchart::block::Block;
use termchart::buffer::{Buffer, Cell};
use termchart::geometry::Rect;
use termchart::style::Color;

fn cell(symbol: char, fg: Color, bg: Color) -> Option<Cell> {
    Some(Cell { symbol, fg, bg })
}

#[test]
fn empty_buffer_is_blank() {
    let buffer = Buffer::empty(Rect::new(5, 6, 3, 2));
    assert_eq!(buffer.area(), Rect::new(5, 6, 3, 2));
    for y in 0..2 {
        for x in 0..3 {
            assert_eq!(buffer.get(x, y), Some(Cell::default()));
        }
    }
    assert_eq!(buffer.get(3, 0), None);
    assert_eq!(buffer.get(0, 2), None);
    assert_eq!(Cell::default(), Cell { symbol: ' ', fg: Color::Reset, bg: Color::Reset });
}

#[test]
fn buffer_without_cells_takes_no_write() {
    let mut buffer = Buffer::empty(Rect::new(0, 0, 0, 4));
    buffer.update_cell(0, 0, 'x', Color::Red, Color::Blue);
    buffer.set_string(0, 1, "abc", Color::Red, Color::Blue);
    assert_eq!(buffer.get(0, 0), None);
}

#[test]
fn update_cell_writes_one_cell() {
    let mut buffer = Buffer::empty(Rect::new(0, 0, 4, 3));
    buffer.update_cell(2, 1, 'x', Color::Red, Color::Blue);
    for y in 0..3 {
        for x in 0..4 {
            let expected = if (x, y) == (2, 1) {
                cell('x', Color::Red, Color::Blue)
            } else {
                Some(Cell::default())
            };
            assert_eq!(buffer.get(x, y), expected);
        }
    }
}

#[test]
fn writes_outside_the_grid_change_nothing() {
    let mut buffer = Buffer::empty(Rect::new(0, 0, 4, 3));
    buffer.update_cell(4, 0, 'x', Color::Red, Color::Blue);
    buffer.update_cell(0, 3, 'x', Color::Red, Color::Blue);
    buffer.update_cell(u16::MAX, u16::MAX, 'x', Color::Red, Color::Blue);
    buffer.set_string(4, 1, "abc", Color::Red, Color::Blue);
    buffer.set_string(0, 3, "abc", Color::Red, Color::Blue);
    buffer.set_string(u16::MAX, 0, "abc", Color::Red, Color::Blue);
    for y in 0..3 {
        for x in 0..4 {
            assert_eq!(buffer.get(x, y), Some(Cell::default()));
        }
    }
}

#[test]
fn later_write_replaces_earlier() {
    let mut buffer = Buffer::empty(Rect::new(0, 0, 4, 3));
    buffer.update_cell(1, 1, 'a', Color::Red, Color::Blue);
    buffer.update_cell(1, 1, 'b', Color::Green, Color::Black);
    assert_eq!(buffer.get(1, 1), cell('b', Color::Green, Color::Black));
}

#[test]
fn set_string_is_clipped_at_the_right_edge() {
    let mut buffer = Buffer::empty(Rect::new(0, 0, 5, 2));
    buffer.set_string(3, 0, "abcd", Color::Red, Color::Blue);
    assert_eq!(buffer.get(2, 0), Some(Cell::default()));
    assert_eq!(buffer.get(3, 0), cell('a', Color::Red, Color::Blue));
    assert_eq!(buffer.get(4, 0), cell('b', Color::Red, Color::Blue));
    for x in 0..5 {
        assert_eq!(buffer.get(x, 1), Some(Cell::default()));
    }
}

#[test]
fn set_string_writes_one_character_to_a_cell() {
    let mut buffer = Buffer::empty(Rect::new(0, 0, 6, 1));
    buffer.set_string(1, 0, "a\u{e9}\u{65e5}z", Color::Yellow, Color::Reset);
    assert_eq!(buffer.get(0, 0), Some(Cell::default()));
    assert_eq!(buffer.get(1, 0), cell('a', Color::Yellow, Color::Reset));
    assert_eq!(buffer.get(2, 0), cell('\u{e9}', Color::Yellow, Color::Reset));
    assert_eq!(buffer.get(3, 0), cell('\u{65e5}', Color::Yellow, Color::Reset));
    assert_eq!(buffer.get(4, 0), cell('z', Color::Yellow, Color::Reset));
    assert_eq!(buffer.get(5, 0), Some(Cell::default()));
    buffer.set_string(2, 0, "", Color::Red, Color::Red);
    assert_eq!(buffer.get(2, 0), cell('\u{e9}', Color::Yellow, Color::Reset));
}

#[test]
fn block_draws_a_frame() {
    let block = Block { border_color: Color::Cyan, bg: Color::Black };
    let area = Rect::new(7, 9, 4, 3);
    let buffer = block.buffer(&area);
    assert_eq!(buffer.area(), area);
    let rows = ["\u{250c}\u{2500}\u{2500}\u{2510}", "\u{2502}  \u{2502}", "\u{2514}\u{2500}\u{2500}\u{2518}"];
    for (y, row) in rows.iter().enumerate() {
        for (x, symbol) in row.chars().enumerate() {
            let expected = if symbol == ' ' {
                Some(Cell::default())
            } else {
                cell(symbol, Color::Cyan, Color::Black)
            };
            assert_eq!(buffer.get(x as u16, y as u16), expected);
        }
    }
    assert_eq!(block.inner(area), Rect::new(8, 10, 2, 1));
}

#[test]
fn block_needs_two_rows_and_columns() {
    let block = Block::default();
    let area = Rect::new(2, 3, 1, 5);
    let buffer = block.buffer(&area);
    for y in 0..5 {
        assert_eq!(buffer.get(0, y), Some(Cell::default()));
    }
    assert_eq!(block.inner(area), Rect::new(2, 3, 0, 0));
    assert_eq!(block.inner(Rect::new(2, 3, 2, 2)), Rect::new(3, 4, 0, 0));
}

#[test]
fn rectangles_compare_by_their_edges() {
    let outer = Rect::new(1, 1, 10, 10);
    assert!(outer.encloses(&outer));
    assert!(outer.encloses(&Rect::new(2, 2, 9, 9)));
    assert!(!outer.encloses(&Rect::new(2, 2, 10, 9)));
    assert!(!outer.encloses(&Rect::new(0, 1, 5, 5)));
    assert!(Rect::new(0, 0, 0, 7).has_no_cells());
    assert!(!Rect::new(0, 0, 1, 7).has_no_cells());
    assert!(Rect::new(65530, 0, 5, 7).fits_screen());
    assert!(!Rect::new(65530, 0, 6, 7).fits_screen());
    assert_eq!(Rect::default(), Rect::new(0, 0, 0, 0));
}
