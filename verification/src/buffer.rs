//! The grid of styled characters that a widget is painted into.
//!
//! Cells are addressed by column and row, counted from the top-left corner
//! of the buffer. A write outside the grid changes nothing, and a later
//! write to a cell replaces an earlier one.

use crate::geometry::Rect;
use crate::style::Color;
use crate::symbols::BLANK;
use vstd::prelude::*;

verus! {

/// One position of the display: a character and its two colors.
#[derive(Clone, Copy, Debug, PartialEq, Eq, Structural)]
pub struct Cell {
    pub symbol: char,
    pub fg: Color,
    pub bg: Color,
}

impl Cell {
    /// The cell that nothing was written to.
    pub open spec fn blank() -> Cell {
        Cell { symbol: BLANK, fg: Color::Reset, bg: Color::Reset }
    }
}

impl Default for Cell {
    fn default() -> (cell: Cell)
        ensures
            cell == Cell::blank(),
    {
        Cell { symbol: BLANK, fg: Color::Reset, bg: Color::Reset }
    }
}

/// What a buffer shows: the cell at each `(column, row)` of the grid.
pub type Grid = Map<(int, int), Cell>;

/// The positions of a grid of `width` columns and `height` rows.
pub open spec fn positions(width: int, height: int) -> Set<(int, int)> {
    Set::new(|p: (int, int)| 0 <= p.0 < width && 0 <= p.1 < height)
}

/// The grid of `width` columns and `height` rows in which every cell is
/// blank.
pub open spec fn blank_grid(width: int, height: int) -> Grid {
    Map::new(|p: (int, int)| positions(width, height).contains(p), |p: (int, int)| Cell::blank())
}

/// `g` with `cell` at `(x, y)`; `g` itself where that is no position of it.
pub open spec fn put(g: Grid, x: int, y: int, cell: Cell) -> Grid {
    if g.dom().contains((x, y)) {
        g.insert((x, y), cell)
    } else {
        g
    }
}

/// The cell that shows character `i` of `text` in the colors `fg` and `bg`.
pub open spec fn text_cell(text: Seq<char>, i: int, fg: Color, bg: Color) -> Cell {
    Cell { symbol: text[i], fg, bg }
}

/// `g` with the characters of `text` in row `y` from column `x` on, one to
/// a cell, in the colors `fg` and `bg`. What falls outside `g` is dropped.
pub open spec fn put_text(g: Grid, x: int, y: int, text: Seq<char>, fg: Color, bg: Color) -> Grid {
    g.dom().mk_map(
        |p: (int, int)|
            if p.1 == y && x <= p.0 < x + text.len() {
                text_cell(text, p.0 - x, fg, bg)
            } else {
                g[p]
            },
    )
}

/// Cells of a grid that is `width` wide are stored row by row; two
/// positions share a slot only if they are the same.
pub proof fn lemma_slots_differ(width: int, x: int, y: int, u: int, v: int)
    requires
        0 <= x < width,
        0 <= u < width,
        0 <= y,
        0 <= v,
        y * width + x == v * width + u,
    ensures
        x == u,
        y == v,
{
    if y < v {
        assert((v - y) * width >= width) by (nonlinear_arith)
            requires
                v - y >= 1,
                width > 0,
        ;
        assert(v * width - y * width == (v - y) * width) by (nonlinear_arith);
    } else if v < y {
        assert((y - v) * width >= width) by (nonlinear_arith)
            requires
                y - v >= 1,
                width > 0,
        ;
        assert(y * width - v * width == (y - v) * width) by (nonlinear_arith);
    }
}

/// The slot of a position of the grid lies within the storage.
pub proof fn lemma_slot_in_range(width: int, height: int, x: int, y: int)
    requires
        0 <= x < width,
        0 <= y < height,
    ensures
        0 <= y * width + x < width * height,
{
    assert(y * width + x < width * height) by (nonlinear_arith)
        requires
            0 <= x < width,
            0 <= y < height,
    ;
    assert(0 <= y * width) by (nonlinear_arith)
        requires
            0 <= y,
            0 < width,
    ;
}

/// A grid of cells, as large as the area that it was made for.
#[derive(Debug)]
pub struct Buffer {
    area: Rect,
    content: Vec<Cell>,
}

impl View for Buffer {
    type V = Grid;

    closed spec fn view(&self) -> Grid {
        Map::new(
            |p: (int, int)| positions(self.area.width as int, self.area.height as int).contains(p),
            |p: (int, int)| self.content@[p.1 * self.area.width + p.0],
        )
    }
}

impl Buffer {
    #[verifier::type_invariant]
    spec fn well_formed(self) -> bool {
        self.content.len() == self.area.width * self.area.height
    }

    /// The area that the buffer was made for.
    pub closed spec fn spec_area(&self) -> Rect {
        self.area
    }

    /// The grid has a cell for each column and row of the area, and no
    /// other.
    pub proof fn lemma_positions(&self)
        ensures
            self@.dom() == positions(self.area().width as int, self.area().height as int),
    {
        assert(self@.dom() =~= positions(self.area.width as int, self.area.height as int));
    }

    /// A buffer for `area` in which every cell is blank.
    pub fn empty(area: Rect) -> (buffer: Buffer)
        ensures
            buffer.area() == area,
            buffer@ == blank_grid(area.width as int, area.height as int),
    {
        let width: usize = area.width as usize;
        let height: usize = area.height as usize;
        assert(width * height <= 0xffff * 0xffff) by (nonlinear_arith)
            requires
                width <= 0xffff,
                height <= 0xffff,
        ;
        let count: usize = width * height;
        let mut content: Vec<Cell> = Vec::new();
        let mut i: usize = 0;
        while i < count
            invariant
                i <= count,
                content.len() == i,
                forall|k: int| 0 <= k < i ==> content[k] == Cell::blank(),
            decreases count - i,
        {
            content.push(Cell { symbol: BLANK, fg: Color::Reset, bg: Color::Reset });
            i += 1;
        }
        let buffer = Buffer { area, content };
        proof {
            assert forall|p: (int, int)|
                positions(area.width as int, area.height as int).contains(p) implies buffer@[p]
                == Cell::blank() by {
                lemma_slot_in_range(area.width as int, area.height as int, p.0, p.1);
            }
            assert(buffer@ =~= blank_grid(area.width as int, area.height as int));
        }
        buffer
    }

    /// The area that the buffer was made for.
    #[verifier::when_used_as_spec(spec_area)]
    pub fn area(&self) -> (area: Rect)
        ensures
            area == self.area(),
    {
        self.area
    }

    /// The cell at column `x` of row `y`, if the grid has one there.
    pub fn get(&self, x: u16, y: u16) -> (cell: Option<Cell>)
        ensures
            cell == if self@.dom().contains((x as int, y as int)) {
                Some(self@[(x as int, y as int)])
            } else {
                None
            },
    {
        proof {
            use_type_invariant(self);
        }
        if x < self.area.width && y < self.area.height {
            proof {
                lemma_slot_in_range(
                    self.area.width as int,
                    self.area.height as int,
                    x as int,
                    y as int,
                );
            }
            let slot: usize = y as usize * self.area.width as usize + x as usize;
            Some(self.content[slot])
        } else {
            None
        }
    }

    /// Writes one cell. Outside the grid nothing is written.
    pub fn update_cell(&mut self, x: u16, y: u16, symbol: char, fg: Color, bg: Color)
        ensures
            final(self)@ == put(old(self)@, x as int, y as int, Cell { symbol, fg, bg }),
            final(self).area() == old(self).area(),
    {
        proof {
            use_type_invariant(&*self);
        }
        if x < self.area.width && y < self.area.height {
            let ghost width = self.area.width as int;
            proof {
                lemma_slot_in_range(width, self.area.height as int, x as int, y as int);
            }
            let slot: usize = y as usize * self.area.width as usize + x as usize;
            // The buffer is taken apart to be written and put together again:
            // wherever a buffer can be seen, its storage has the size of its
            // area.
            let mut taken = Buffer { area: Rect { x: 0, y: 0, width: 0, height: 0 }, content: Vec::new() };
            core::mem::swap(self, &mut taken);
            let Buffer { area, mut content } = taken;
            content.set(slot, Cell { symbol, fg, bg });
            *self = Buffer { area, content };
            proof {
                assert forall|p: (int, int)| self@.dom().contains(p) implies self@[p] == put(
                    old(self)@,
                    x as int,
                    y as int,
                    Cell { symbol, fg, bg },
                )[p] by {
                    lemma_slot_in_range(width, area.height as int, p.0, p.1);
                    if p.1 * width + p.0 == y * width + x {
                        lemma_slots_differ(width, p.0, p.1, x as int, y as int);
                    }
                }
                assert(self@ =~= put(old(self)@, x as int, y as int, Cell { symbol, fg, bg }));
            }
        }
    }

    /// Writes the characters of `text` into row `y` from column `x` on, one
    /// to a cell. What falls outside the grid is dropped.
    pub fn set_string(&mut self, x: u16, y: u16, text: &str, fg: Color, bg: Color)
        ensures
            final(self)@ == put_text(old(self)@, x as int, y as int, text@, fg, bg),
            final(self).area() == old(self).area(),
    {
        let mut column: u32 = x as u32;
        proof {
            lemma_put_text_empty(self@, x as int, y as int, fg, bg);
            assert(text@.take(0) =~= Seq::empty());
        }
        for c in it: text.chars()
            invariant
                it.seq() == text@,
                column == if x + it.index() <= u16::MAX { x + it.index() } else { u16::MAX + 1 },
                self.area() == old(self).area(),
                self@ == put_text(old(self)@, x as int, y as int, text@.take(it.index()), fg, bg),
        {
            proof {
                lemma_put_text_next(old(self)@, x as int, y as int, text@, fg, bg, it.index());
            }
            if column <= u16::MAX as u32 {
                self.update_cell(column as u16, y, c, fg, bg);
                column += 1;
            } else {
                proof {
                    self.lemma_positions();
                }
            }
        }
        assert(text@.take(text@.len() as int) =~= text@);
    }
}

/// Writing no text changes nothing.
pub proof fn lemma_put_text_empty(g: Grid, x: int, y: int, fg: Color, bg: Color)
    ensures
        put_text(g, x, y, Seq::empty(), fg, bg) == g,
{
    assert(put_text(g, x, y, Seq::empty(), fg, bg) =~= g);
}

/// Writing one more character of `text` is writing one more cell.
pub proof fn lemma_put_text_next(g: Grid, x: int, y: int, text: Seq<char>, fg: Color, bg: Color, n: int)
    requires
        0 <= n < text.len(),
    ensures
        put_text(g, x, y, text.take(n + 1), fg, bg) == put(
            put_text(g, x, y, text.take(n), fg, bg),
            x + n,
            y,
            text_cell(text, n, fg, bg),
        ),
{
    assert(put_text(g, x, y, text.take(n + 1), fg, bg) =~= put(
        put_text(g, x, y, text.take(n), fg, bg),
        x + n,
        y,
        text_cell(text, n, fg, bg),
    ));
}

} // verus!
