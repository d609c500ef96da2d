//! Splitting a rectangle into the regions of a chart.
//!
//! The regions are claimed in a fixed order from the bottom-left corner of
//! the drawable rectangle: the row of the x labels, the columns of the y
//! labels, the row of the x axis, the column of the y axis. What is left is
//! the plot. A claim that does not fit is passed over; none is taken back.
//!
//! Rows and columns are counted from the corner of the outer rectangle, the
//! one that the whole widget was given.

use crate::axis::{Axis, AxisView};
use crate::geometry::Rect;
use crate::text::{display_width, max_width, str_width, widest};
use vstd::prelude::*;

verus! {

/// Where each region of a chart lies. A region that found no room is `None`;
/// a plot that found no room is the zero rectangle.
#[derive(Clone, Copy, Debug, PartialEq, Eq)]
pub struct ChartLayout {
    /// Column and row of the first character of the x axis' title.
    pub legend_x: Option<(u16, u16)>,
    /// Column and row of the first character of the y axis' title.
    pub legend_y: Option<(u16, u16)>,
    /// Row of the x labels.
    pub label_x: Option<u16>,
    /// First column of the y labels.
    pub label_y: Option<u16>,
    /// Row of the x axis.
    pub axis_x: Option<u16>,
    /// Column of the y axis.
    pub axis_y: Option<u16>,
    /// The plot, in the coordinates of the display.
    pub graph_area: Rect,
}

impl ChartLayout {
    /// The layout in which nothing has found room.
    pub open spec fn nothing() -> ChartLayout {
        ChartLayout {
            legend_x: None,
            legend_y: None,
            label_x: None,
            label_y: None,
            axis_x: None,
            axis_y: None,
            graph_area: Rect::zero(),
        }
    }
}

impl Default for ChartLayout {
    fn default() -> (layout: ChartLayout)
        ensures
            layout == ChartLayout::nothing(),
    {
        ChartLayout {
            legend_x: None,
            legend_y: None,
            label_x: None,
            label_y: None,
            axis_x: None,
            axis_y: None,
            graph_area: Rect { x: 0, y: 0, width: 0, height: 0 },
        }
    }
}

/// The corner of what is still free: `x` is its leftmost column, `y` its
/// lowest row. `y` is -1 only at the start in a rectangle that has no rows
/// and begins in the top row of the outer one; no chart is laid out from
/// there.
pub struct Position {
    pub x: int,
    pub y: int,
}

impl Position {
    /// Both coordinates are those of a cell, or `y` is -1.
    pub open spec fn on_screen(self) -> bool {
        0 <= self.x <= u16::MAX && -1 <= self.y <= u16::MAX
    }
}

/// The bottom-left corner of `inner`, seen from the corner of `outer`.
pub open spec fn start_position(inner: Rect, outer: Rect) -> Position {
    Position { x: inner.x - outer.x, y: (inner.y - outer.y) + inner.height - 1 }
}

/// Whether a row is claimed at `p`: it must be wanted, and more than one row
/// must remain above it.
pub open spec fn row_taken(p: Position, wanted: bool) -> bool {
    wanted && p.y > 1
}

/// The position after a row was claimed at `p`, or passed over.
pub open spec fn after_row(p: Position, wanted: bool) -> Position {
    if row_taken(p, wanted) {
        Position { x: p.x, y: p.y - 1 }
    } else {
        p
    }
}

/// Whether `count` columns are claimed at `p`: they must be wanted, and end
/// before column `limit`.
pub open spec fn columns_taken(p: Position, wanted: bool, count: nat, limit: int) -> bool {
    wanted && p.x + count < limit
}

/// The position after `count` columns were claimed at `p`, or passed over.
pub open spec fn after_columns(p: Position, wanted: bool, count: nat, limit: int) -> Position {
    if columns_taken(p, wanted, count, limit) {
        Position { x: p.x + count, y: p.y }
    } else {
        p
    }
}

/// The plot that is left at `p`: from column `p.x` up to column
/// `inner.width`, `p.y` rows high from the top row of `inner`. Where no
/// column or at most one row is left, there is no plot.
pub open spec fn plot_at(p: Position, inner: Rect, outer: Rect) -> Rect {
    if p.x < inner.width && p.y > 1 {
        Rect {
            x: (outer.x + p.x) as u16,
            y: inner.y,
            width: (inner.width - p.x) as u16,
            height: p.y as u16,
        }
    } else {
        Rect::zero()
    }
}

/// Where the title of the x axis starts: it ends with the plot's last
/// column, in row `p.y`. It needs a plot wider than itself and higher than
/// two rows.
pub open spec fn x_legend_at(p: Position, plot: Rect, title: Option<nat>) -> Option<(u16, u16)> {
    match title {
        Some(w) if w < plot.width && plot.height > 2 => Some(
            ((p.x + plot.width - w) as u16, p.y as u16),
        ),
        _ => None,
    }
}

/// Where the title of the y axis starts: one column into the plot, in row
/// `top`. It needs a plot wider than itself by more than one column and
/// higher than two rows.
pub open spec fn y_legend_at(p: Position, plot: Rect, title: Option<nat>, top: int) -> Option<
    (u16, u16),
> {
    match title {
        Some(w) if w + 1 < plot.width && plot.height > 2 => Some(((p.x + 1) as u16, top as u16)),
        _ => None,
    }
}

/// The width of a title, where there is one.
pub open spec fn title_width(title: Option<Seq<char>>) -> Option<nat> {
    match title {
        Some(t) => Some(display_width(t)),
        None => None,
    }
}

/// The columns that the labels of an axis need: the width of the widest.
pub open spec fn label_columns(labels: Option<Seq<Seq<char>>>) -> nat {
    match labels {
        Some(l) => max_width(l),
        None => 0,
    }
}

/// The position at which the plot begins, after the four claims.
pub open spec fn plot_position(inner: Rect, outer: Rect, x_axis: AxisView, y_axis: AxisView) -> Position {
    let with_x = x_axis.labels is Some;
    let with_y = y_axis.labels is Some;
    let p1 = after_row(start_position(inner, outer), with_x);
    let p2 = after_columns(p1, with_y, label_columns(y_axis.labels), inner.width as int);
    let p3 = after_row(p2, with_x);
    after_columns(p3, with_y, 1, inner.width as int)
}

/// The columns that the labels of an axis were measured to need, where it
/// has labels.
pub open spec fn label_widths(labels: Option<Seq<Seq<char>>>) -> Option<nat> {
    match labels {
        Some(l) => Some(max_width(l)),
        None => None,
    }
}

/// The layout in a drawable rectangle that has cells: the four claims in
/// their order, the plot that they leave, and the titles in it.
pub open spec fn claims_layout(
    inner: Rect,
    outer: Rect,
    x_labels: bool,
    y_labels: Option<nat>,
    x_title: Option<nat>,
    y_title: Option<nat>,
) -> ChartLayout {
    let with_x = x_labels;
    let with_y = y_labels is Some;
    let columns = match y_labels {
        Some(w) => w,
        None => 0,
    };
    let limit = inner.width as int;
    let p0 = start_position(inner, outer);
    let p1 = after_row(p0, with_x);
    let p2 = after_columns(p1, with_y, columns, limit);
    let p3 = after_row(p2, with_x);
    let p4 = after_columns(p3, with_y, 1, limit);
    let plot = plot_at(p4, inner, outer);
    ChartLayout {
        legend_x: x_legend_at(p4, plot, x_title),
        legend_y: y_legend_at(p4, plot, y_title, inner.y - outer.y),
        label_x: if row_taken(p0, with_x) { Some(p0.y as u16) } else { None },
        label_y: if columns_taken(p1, with_y, columns, limit) { Some(p1.x as u16) } else { None },
        axis_x: if row_taken(p2, with_x) { Some(p2.y as u16) } else { None },
        axis_y: if columns_taken(p3, with_y, 1, limit) { Some(p3.x as u16) } else { None },
        graph_area: plot,
    }
}

/// The layout of a chart of which only the measures are given: whether the
/// x axis has labels, the width of the widest label of the y axis, and the
/// widths of the two titles, each where there is one. In a rectangle
/// without columns or without rows nothing finds room: no claim is made and
/// there is no plot.
pub open spec fn measured_layout(
    inner: Rect,
    outer: Rect,
    x_labels: bool,
    y_labels: Option<nat>,
    x_title: Option<nat>,
    y_title: Option<nat>,
) -> ChartLayout {
    if inner.is_empty() {
        ChartLayout::nothing()
    } else {
        claims_layout(inner, outer, x_labels, y_labels, x_title, y_title)
    }
}

/// The layout of a chart with the axes `x_axis` and `y_axis` in the drawable
/// rectangle `inner` of a widget that was given `outer`: that of their
/// measures.
pub open spec fn chart_layout(inner: Rect, outer: Rect, x_axis: AxisView, y_axis: AxisView) -> ChartLayout {
    measured_layout(
        inner,
        outer,
        x_axis.labels is Some,
        label_widths(y_axis.labels),
        title_width(x_axis.title),
        title_width(y_axis.title),
    )
}

/// The corner of what is still free while a chart is laid out.
pub struct Cursor {
    x: i32,
    y: i32,
}

impl View for Cursor {
    type V = Position;

    closed spec fn view(&self) -> Position {
        Position { x: self.x as int, y: self.y as int }
    }
}

impl Cursor {
    #[verifier::type_invariant]
    spec fn in_range(self) -> bool {
        0 <= self.x <= u16::MAX && -1 <= self.y <= u16::MAX
    }

    /// The cursor at the bottom-left corner of `inner`.
    pub fn start(inner: &Rect, outer: &Rect) -> (cursor: Cursor)
        requires
            outer.contains(*inner),
        ensures
            cursor@ == start_position(*inner, *outer),
            cursor@.on_screen(),
    {
        let x: i32 = inner.x as i32 - outer.x as i32;
        let y: i32 = (inner.y as i32 - outer.y as i32) + inner.height as i32 - 1;
        Cursor { x, y }
    }

    /// Claims the row at the cursor if it is wanted and fits, and moves the
    /// cursor one row up.
    pub fn reserve_row(&mut self, wanted: bool) -> (row: Option<u16>)
        ensures
            final(self)@ == after_row(old(self)@, wanted),
            final(self)@.on_screen(),
            row == if row_taken(old(self)@, wanted) {
                Some(old(self)@.y as u16)
            } else {
                None
            },
    {
        proof {
            use_type_invariant(&*self);
        }
        if wanted && self.y > 1 {
            let row: u16 = self.y as u16;
            self.y = self.y - 1;
            Some(row)
        } else {
            None
        }
    }

    /// Claims `count` columns at the cursor if they are wanted and end
    /// before column `limit`, and moves the cursor past them.
    pub fn reserve_columns(&mut self, wanted: bool, count: usize, limit: u16) -> (column: Option<u16>)
        ensures
            final(self)@ == after_columns(old(self)@, wanted, count as nat, limit as int),
            final(self)@.on_screen(),
            column == if columns_taken(old(self)@, wanted, count as nat, limit as int) {
                Some(old(self)@.x as u16)
            } else {
                None
            },
    {
        proof {
            use_type_invariant(&*self);
        }
        if wanted && count < limit as usize && self.x + (count as i32) < limit as i32 {
            let column: u16 = self.x as u16;
            self.x = self.x + count as i32;
            Some(column)
        } else {
            None
        }
    }

    /// The plot that is left at the cursor.
    pub fn plot(&self, inner: &Rect, outer: &Rect) -> (plot: Rect)
        requires
            outer.contains(*inner),
            outer.on_screen(),
        ensures
            plot == plot_at(self@, *inner, *outer),
    {
        proof {
            use_type_invariant(self);
        }
        if self.x < inner.width as i32 && self.y > 1 {
            Rect {
                x: (outer.x as i32 + self.x) as u16,
                y: inner.y,
                width: (inner.width as i32 - self.x) as u16,
                height: self.y as u16,
            }
        } else {
            Rect { x: 0, y: 0, width: 0, height: 0 }
        }
    }

    /// Where the title of the x axis starts, if `plot` has room for it.
    pub fn x_legend(&self, plot: &Rect, title: Option<usize>) -> (legend: Option<(u16, u16)>)
        requires
            self@.x + plot.width <= u16::MAX,
            plot.height > 2 ==> self@.y >= 0,
        ensures
            legend == x_legend_at(self@, *plot, title_as_nat(title)),
    {
        proof {
            use_type_invariant(self);
        }
        match title {
            Some(w) => {
                if w < plot.width as usize && plot.height > 2 {
                    Some(((self.x + plot.width as i32 - w as i32) as u16, self.y as u16))
                } else {
                    None
                }
            },
            None => None,
        }
    }

    /// Where the title of the y axis starts, if `plot` has room for it.
    pub fn y_legend(&self, plot: &Rect, title: Option<usize>, top: u16) -> (legend: Option<(u16, u16)>)
        requires
            self@.x + plot.width <= u16::MAX,
        ensures
            legend == y_legend_at(self@, *plot, title_as_nat(title), top as int),
    {
        proof {
            use_type_invariant(self);
        }
        match title {
            Some(w) => {
                if w < plot.width as usize && w + 1 < plot.width as usize && plot.height > 2 {
                    Some(((self.x + 1) as u16, top))
                } else {
                    None
                }
            },
            None => None,
        }
    }
}

/// A measured width as a natural number.
pub open spec fn title_as_nat(title: Option<usize>) -> Option<nat> {
    match title {
        Some(w) => Some(w as nat),
        None => None,
    }
}

/// The width of the title of `axis`, where it has one.
pub fn measure_title(axis: &Axis) -> (width: Option<usize>)
    ensures
        title_as_nat(width) == title_width(axis@.title),
{
    match &axis.title {
        Some(t) => Some(str_width(t.as_str())),
        None => None,
    }
}

/// The width of the widest label of `axis`, where it has labels.
pub fn measure_labels(axis: &Axis) -> (width: Option<usize>)
    ensures
        title_as_nat(width) == label_widths(axis@.labels),
{
    match &axis.labels {
        Some(labels) => Some(widest(labels)),
        None => None,
    }
}

/// Lays out a chart of which only the measures are given: whether the x
/// axis has labels, the width of the widest label of the y axis, and the
/// widths of the two titles, each where there is one.
pub fn layout_measured(
    inner: &Rect,
    outer: &Rect,
    x_labels: bool,
    y_labels: Option<usize>,
    x_title: Option<usize>,
    y_title: Option<usize>,
) -> (layout: ChartLayout)
    requires
        outer.contains(*inner),
        outer.on_screen(),
    ensures
        layout == measured_layout(
            *inner,
            *outer,
            x_labels,
            title_as_nat(y_labels),
            title_as_nat(x_title),
            title_as_nat(y_title),
        ),
{
    if inner.has_no_cells() {
        return ChartLayout::default();
    }
    let with_y: bool = y_labels.is_some();
    let columns: usize = match y_labels {
        Some(w) => w,
        None => 0,
    };
    let mut cursor = Cursor::start(inner, outer);
    let label_x = cursor.reserve_row(x_labels);
    let label_y = cursor.reserve_columns(with_y, columns, inner.width);
    let axis_x = cursor.reserve_row(x_labels);
    let axis_y = cursor.reserve_columns(with_y, 1, inner.width);
    let graph_area = cursor.plot(inner, outer);
    let legend_x = cursor.x_legend(&graph_area, x_title);
    let legend_y = cursor.y_legend(&graph_area, y_title, inner.y - outer.y);
    ChartLayout { legend_x, legend_y, label_x, label_y, axis_x, axis_y, graph_area }
}

/// Lays out a chart with the axes `x_axis` and `y_axis` in the drawable
/// rectangle `inner` of a widget that was given `outer`.
pub fn layout(inner: &Rect, outer: &Rect, x_axis: &Axis, y_axis: &Axis) -> (layout: ChartLayout)
    requires
        outer.contains(*inner),
        outer.on_screen(),
    ensures
        layout == chart_layout(*inner, *outer, x_axis@, y_axis@),
{
    layout_measured(
        inner,
        outer,
        x_axis.labels.is_some(),
        measure_labels(y_axis),
        measure_title(x_axis),
        measure_title(y_axis),
    )
}

/// The rows claimed below the plot: none, one or two.
pub open spec fn rows_claimed(inner: Rect, outer: Rect, x_axis: AxisView, y_axis: AxisView) -> int {
    start_position(inner, outer).y - plot_position(inner, outer, x_axis, y_axis).y
}

/// A plot that is not empty lies within `inner`, as long as the rows of
/// `outer` above `inner` are at most one more than the rows claimed below
/// the plot. A frame one row thick, or none, never has more.
pub proof fn lemma_plot_within_inner(inner: Rect, outer: Rect, x_axis: AxisView, y_axis: AxisView)
    requires
        outer.contains(inner),
        outer.on_screen(),
        inner.y - outer.y <= 1 + rows_claimed(inner, outer, x_axis, y_axis),
    ensures
        ({
            let plot = chart_layout(inner, outer, x_axis, y_axis).graph_area;
            plot.is_empty() || inner.contains(plot)
        }),
{
}

/// With more rows of `outer` above `inner` than that, a plot that is not
/// empty reaches below `inner`: its height is counted from the top of
/// `outer`.
pub proof fn lemma_plot_below_inner(inner: Rect, outer: Rect, x_axis: AxisView, y_axis: AxisView)
    requires
        outer.contains(inner),
        outer.on_screen(),
        inner.y - outer.y > 1 + rows_claimed(inner, outer, x_axis, y_axis),
        !chart_layout(inner, outer, x_axis, y_axis).graph_area.is_empty(),
    ensures
        chart_layout(inner, outer, x_axis, y_axis).graph_area.bottom() > inner.bottom(),
{
}

/// An axis without labels claims nothing: there is no region for its
/// labels, none for its line, and the plot begins where the drawable
/// rectangle does along that axis.
pub proof fn lemma_no_labels_no_claim(inner: Rect, outer: Rect, x_axis: AxisView, y_axis: AxisView)
    ensures
        x_axis.labels is None ==> {
            let l = chart_layout(inner, outer, x_axis, y_axis);
            &&& l.label_x is None
            &&& l.axis_x is None
            &&& plot_position(inner, outer, x_axis, y_axis).y == start_position(inner, outer).y
        },
        y_axis.labels is None ==> {
            let l = chart_layout(inner, outer, x_axis, y_axis);
            &&& l.label_y is None
            &&& l.axis_y is None
            &&& plot_position(inner, outer, x_axis, y_axis).x == start_position(inner, outer).x
        },
{
}

/// Laying out is repeatable: whatever was computed twice for the same
/// rectangles and for axes that hold the same titles and labels is the same
/// layout.
pub proof fn lemma_layout_repeatable(
    inner: Rect,
    outer: Rect,
    x_axis: Axis,
    y_axis: Axis,
    x_again: Axis,
    y_again: Axis,
    first: ChartLayout,
    second: ChartLayout,
)
    requires
        x_axis@ == x_again@,
        y_axis@ == y_again@,
        first == chart_layout(inner, outer, x_axis@, y_axis@),
        second == chart_layout(inner, outer, x_again@, y_again@),
    ensures
        first == second,
        first.legend_x == second.legend_x,
        first.legend_y == second.legend_y,
        first.label_x == second.label_x,
        first.label_y == second.label_y,
        first.axis_x == second.axis_x,
        first.axis_y == second.axis_y,
        first.graph_area == second.graph_area,
{
}

/// In a drawable rectangle without columns or without rows nothing finds
/// room, whatever the axes hold: no label, no axis line, no title, no plot.
pub proof fn lemma_no_cells_no_layout(inner: Rect, outer: Rect, x_axis: AxisView, y_axis: AxisView)
    requires
        inner.width == 0 || inner.height == 0,
    ensures
        chart_layout(inner, outer, x_axis, y_axis) == ChartLayout::nothing(),
{
}

/// The regions beside the plot lie outside it: the claimed rows below its
/// last row, the claimed columns left of its first column.
pub proof fn lemma_claims_beside_plot(inner: Rect, outer: Rect, x_axis: AxisView, y_axis: AxisView)
    requires
        outer.contains(inner),
        outer.on_screen(),
        !chart_layout(inner, outer, x_axis, y_axis).graph_area.is_empty(),
    ensures
        ({
            let l = chart_layout(inner, outer, x_axis, y_axis);
            let p = plot_position(inner, outer, x_axis, y_axis);
            &&& l.graph_area.x == outer.x + p.x
            &&& l.graph_area.height == p.y
            &&& l.label_x matches Some(row) ==> row > p.y
            &&& l.axis_x matches Some(row) ==> row > p.y
            &&& l.label_y matches Some(column) ==> column <= p.x
            &&& l.axis_y matches Some(column) ==> column < p.x
            &&& l.label_x is Some && l.axis_x is Some ==> l.axis_x->0 < l.label_x->0
            &&& l.label_y is Some && l.axis_y is Some ==> l.label_y->0 <= l.axis_y->0
        }),
{
}

} // verus!
