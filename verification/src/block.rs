//! A frame around a widget.

use crate::buffer::{blank_grid, positions, put, Buffer, Cell, Grid};
use crate::geometry::Rect;
use crate::style::Color;
use crate::symbols::{BOTTOM_LEFT, BOTTOM_RIGHT, HORIZONTAL, TOP_LEFT, TOP_RIGHT, VERTICAL};
use vstd::prelude::*;

verus! {

/// A frame one cell thick along the four edges of an area. An area less
/// than two cells wide or high has no room for it and gets none.
#[derive(Clone, Copy, Debug, PartialEq, Eq, Structural)]
pub struct Block {
    pub border_color: Color,
    pub bg: Color,
}

/// The symbol of the frame at column `x`, row `y` of an area `width` by
/// `height`; none inside the frame.
pub open spec fn border_symbol(width: int, height: int, x: int, y: int) -> Option<char> {
    let left = x == 0;
    let right = x == width - 1;
    let top = y == 0;
    let bottom = y == height - 1;
    if top && left {
        Some(TOP_LEFT)
    } else if top && right {
        Some(TOP_RIGHT)
    } else if bottom && left {
        Some(BOTTOM_LEFT)
    } else if bottom && right {
        Some(BOTTOM_RIGHT)
    } else if top || bottom {
        Some(HORIZONTAL)
    } else if left || right {
        Some(VERTICAL)
    } else {
        None
    }
}

/// What is left for the widget inside a frame around `area`.
pub open spec fn framed(area: Rect) -> Rect {
    if area.width < 2 || area.height < 2 {
        Rect { x: area.x, y: area.y, width: 0, height: 0 }
    } else {
        Rect {
            x: (area.x + 1) as u16,
            y: (area.y + 1) as u16,
            width: (area.width - 2) as u16,
            height: (area.height - 2) as u16,
        }
    }
}

impl Block {
    /// The cell at column `x`, row `y` of a framed area `width` by `height`.
    pub open spec fn cell_at(self, width: int, height: int, x: int, y: int) -> Cell {
        match border_symbol(width, height, x, y) {
            Some(symbol) if width >= 2 && height >= 2 => Cell {
                symbol,
                fg: self.border_color,
                bg: self.bg,
            },
            _ => Cell::blank(),
        }
    }

    /// The grid of an area `width` by `height` with the frame drawn.
    pub open spec fn frame(self, width: int, height: int) -> Grid {
        positions(width, height).mk_map(|p: (int, int)| self.cell_at(width, height, p.0, p.1))
    }

    /// What is left for the widget inside the frame around `area`.
    pub fn inner(&self, area: Rect) -> (inner: Rect)
        requires
            area.on_screen(),
        ensures
            inner == framed(area),
            area.contains(inner),
    {
        if area.width < 2 || area.height < 2 {
            Rect { x: area.x, y: area.y, width: 0, height: 0 }
        } else {
            Rect { x: area.x + 1, y: area.y + 1, width: area.width - 2, height: area.height - 2 }
        }
    }

    /// A buffer for `area` with the frame drawn along its edges.
    pub fn buffer(&self, area: &Rect) -> (buffer: Buffer)
        ensures
            buffer.area() == *area,
            buffer@ == self.frame(area.width as int, area.height as int),
    {
        let mut buffer = Buffer::empty(*area);
        let width: u16 = area.width;
        let height: u16 = area.height;
        let ghost w = width as int;
        let ghost h = height as int;
        let ghost grid = positions(w, h);
        let fg = self.border_color;
        let bg = self.bg;
        proof {
            buffer.lemma_positions();
        }
        if width < 2 || height < 2 {
            assert(buffer@ =~= self.frame(w, h));
            return buffer;
        }
        let mut x: u16 = 0;
        while x < width
            invariant
                x <= width,
                height >= 2,
                w == width,
                h == height,
                grid == positions(w, h),
                buffer.area() == *area,
                buffer@.dom() == grid,
                forall|p: (int, int)| #[trigger]
                    grid.contains(p) ==> buffer@[p] == if (p.1 == 0 || p.1 == h - 1) && p.0 < x {
                        Cell { symbol: HORIZONTAL, fg, bg }
                    } else {
                        Cell::blank()
                    },
            decreases width - x,
        {
            buffer.update_cell(x, 0, HORIZONTAL, fg, bg);
            buffer.update_cell(x, height - 1, HORIZONTAL, fg, bg);
            x += 1;
        }
        let mut y: u16 = 0;
        while y < height
            invariant
                y <= height,
                width >= 2,
                w == width,
                h == height,
                grid == positions(w, h),
                buffer.area() == *area,
                buffer@.dom() == grid,
                forall|p: (int, int)| #[trigger]
                    grid.contains(p) ==> buffer@[p] == if (p.0 == 0 || p.0 == w - 1) && p.1 < y {
                        Cell { symbol: VERTICAL, fg, bg }
                    } else if p.1 == 0 || p.1 == h - 1 {
                        Cell { symbol: HORIZONTAL, fg, bg }
                    } else {
                        Cell::blank()
                    },
            decreases height - y,
        {
            buffer.update_cell(0, y, VERTICAL, fg, bg);
            buffer.update_cell(width - 1, y, VERTICAL, fg, bg);
            y += 1;
        }
        buffer.update_cell(0, 0, TOP_LEFT, fg, bg);
        buffer.update_cell(width - 1, 0, TOP_RIGHT, fg, bg);
        buffer.update_cell(0, height - 1, BOTTOM_LEFT, fg, bg);
        buffer.update_cell(width - 1, height - 1, BOTTOM_RIGHT, fg, bg);
        proof {
            assert forall|p: (int, int)| grid.contains(p) implies buffer@[p] == self.cell_at(
                w,
                h,
                p.0,
                p.1,
            ) by {}
            assert(buffer@ =~= self.frame(w, h));
        }
        buffer
    }
}

impl Default for Block {
    fn default() -> (block: Block)
        ensures
            block == (Block { border_color: Color::Reset, bg: Color::Reset }),
    {
        Block { border_color: Color::Reset, bg: Color::Reset }
    }
}

} // verus!
