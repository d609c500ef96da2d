//! Painting the parts of a chart into a buffer.
//!
//! Every function here takes the plot in the coordinates of the buffer:
//! `plot.x` and `plot.y` are the margins left of and above the plot.

use crate::axis::{Axis, AxisView};
use crate::buffer::{put, put_text, Buffer, Cell, Grid};
use crate::dataset::{Dataset, DatasetView};
use crate::geometry::Rect;
use crate::scale::{lemma_scaled_in_extent, lemma_scaled_monotonic, offset_of, scale};
use crate::style::Color;
use crate::symbols::{BLACK_CIRCLE, BOTTOM_LEFT, HORIZONTAL, VERTICAL};
use crate::text::{as_nats, display_width, measure, texts, total_below, total_width, widths};
use vstd::arithmetic::div_mod::{lemma_div_is_ordered, lemma_div_multiples_vanish};
use vstd::prelude::*;

verus! {

/// `g` with `text` written from column `column` of row `row` on; `g` itself
/// where the column lies left of the grid.
pub open spec fn place_text(g: Grid, column: int, row: int, text: Seq<char>, fg: Color, bg: Color) -> Grid {
    if column >= 0 {
        put_text(g, column, row, text, fg, bg)
    } else {
        g
    }
}

/// `g` with the title of an axis at the place that the layout gave it.
pub open spec fn with_title(
    g: Grid,
    at: Option<(u16, u16)>,
    title: Option<Seq<char>>,
    fg: Color,
    bg: Color,
) -> Grid {
    match (at, title) {
        (Some(place), Some(text)) => put_text(g, place.0 as int, place.1 as int, text, fg, bg),
        _ => g,
    }
}

/// How far into the plot label `i` of `count` lies, along `extent` cells:
/// the labels are spread evenly from the first cell to the last, and a
/// position between two cells falls to the lower one.
pub open spec fn spread(i: int, count: int, extent: int) -> int {
    i * (extent - 1) / (count - 1)
}

/// The first and the last label lie at the ends, the others between.
pub proof fn lemma_spread_in_extent(i: int, count: int, extent: int)
    requires
        0 <= i < count,
        2 <= count,
        1 <= extent,
    ensures
        0 <= spread(i, count, extent) <= extent - 1,
        spread(0, count, extent) == 0,
        spread(count - 1, count, extent) == extent - 1,
{
    let last = count - 1;
    let cells = extent - 1;
    assert(0 <= i * cells <= last * cells) by (nonlinear_arith)
        requires
            0 <= i <= last,
            0 <= cells,
    ;
    lemma_div_is_ordered(0, i * cells, last);
    lemma_div_is_ordered(i * cells, last * cells, last);
    lemma_div_multiples_vanish(cells, last);
    assert(last * cells == cells * last) by (nonlinear_arith);
    assert(0 * cells == 0) by (nonlinear_arith);
}

/// The column at which x label `i` starts: it ends where its share of the
/// plot's width lies.
pub open spec fn x_label_column(i: int, labels: Seq<Seq<char>>, plot: Rect) -> int {
    plot.x + spread(i, labels.len() as int, plot.width as int) - display_width(labels[i])
}

/// `g` with the first `k` x labels written into row `row`.
pub open spec fn x_labels_drawn(
    g: Grid,
    row: int,
    labels: Seq<Seq<char>>,
    plot: Rect,
    fg: Color,
    bg: Color,
    k: nat,
) -> Grid
    decreases k,
{
    if k == 0 {
        g
    } else {
        let i = k - 1;
        place_text(
            x_labels_drawn(g, row, labels, plot, fg, bg, i as nat),
            x_label_column(i, labels, plot),
            row,
            labels[i],
            fg,
            bg,
        )
    }
}

/// `g` with the x labels in row `row`. They are written only where there
/// are at least two of them and their widths, added up, stay below the
/// width of the plot.
pub open spec fn with_x_labels(
    g: Grid,
    row: int,
    labels: Seq<Seq<char>>,
    plot: Rect,
    fg: Color,
    bg: Color,
) -> Grid {
    if labels.len() >= 2 && total_width(labels) < plot.width {
        x_labels_drawn(g, row, labels, plot, fg, bg, labels.len())
    } else {
        g
    }
}

/// `g` with the first `k` y labels written from column `column` on. The
/// labels run from the low end of the axis to the high end, so the last of
/// them is written first, into the top row of the plot.
pub open spec fn y_labels_drawn(
    g: Grid,
    column: int,
    labels: Seq<Seq<char>>,
    plot: Rect,
    fg: Color,
    bg: Color,
    k: nat,
) -> Grid
    decreases k,
{
    if k == 0 {
        g
    } else {
        let i = k - 1;
        put_text(
            y_labels_drawn(g, column, labels, plot, fg, bg, i as nat),
            column,
            plot.y + spread(i, labels.len() as int, plot.height as int),
            labels[labels.len() - 1 - i],
            fg,
            bg,
        )
    }
}

/// `g` with the y labels from column `column` on. They are written only
/// where there are at least two of them and the plot has a row.
pub open spec fn with_y_labels(
    g: Grid,
    column: int,
    labels: Seq<Seq<char>>,
    plot: Rect,
    fg: Color,
    bg: Color,
) -> Grid {
    if labels.len() >= 2 && plot.height >= 1 {
        y_labels_drawn(g, column, labels, plot, fg, bg, labels.len())
    } else {
        g
    }
}

/// `g` with `cell` in `len` cells of row `y`, from column `x` on.
pub open spec fn h_line(g: Grid, x: int, y: int, len: int, cell: Cell) -> Grid {
    g.dom().mk_map(
        |p: (int, int)|
            if p.1 == y && x <= p.0 < x + len {
                cell
            } else {
                g[p]
            },
    )
}

/// `g` with `cell` in `len` cells of column `x`, from row `y` on.
pub open spec fn v_line(g: Grid, x: int, y: int, len: int, cell: Cell) -> Grid {
    g.dom().mk_map(
        |p: (int, int)|
            if p.0 == x && y <= p.1 < y + len {
                cell
            } else {
                g[p]
            },
    )
}

/// `g` with the axis lines: the x axis along the plot's width in row
/// `axis_x`, the y axis along its height in column `axis_y`, and the corner
/// where the two meet.
pub open spec fn with_axes(
    g: Grid,
    axis_x: Option<u16>,
    axis_y: Option<u16>,
    plot: Rect,
    x_color: Color,
    y_color: Color,
    bg: Color,
) -> Grid {
    let g1 = match axis_x {
        Some(row) => h_line(
            g,
            plot.x as int,
            row as int,
            plot.width as int,
            Cell { symbol: HORIZONTAL, fg: x_color, bg },
        ),
        None => g,
    };
    let g2 = match axis_y {
        Some(column) => v_line(
            g1,
            column as int,
            plot.y as int,
            plot.height as int,
            Cell { symbol: VERTICAL, fg: y_color, bg },
        ),
        None => g1,
    };
    match (axis_x, axis_y) {
        (Some(row), Some(column)) => put(
            g2,
            column as int,
            row as int,
            Cell { symbol: BOTTOM_LEFT, fg: x_color, bg },
        ),
        _ => g2,
    }
}

/// Writes the title of an axis at the place that the layout gave it.
pub fn draw_title(buffer: &mut Buffer, at: Option<(u16, u16)>, title: &Option<String>, fg: Color, bg: Color)
    ensures
        final(buffer).area() == old(buffer).area(),
        final(buffer)@ == with_title(
            old(buffer)@,
            at,
            match *title {
                Some(t) => Some(t@),
                None => None,
            },
            fg,
            bg,
        ),
{
    match (at, title) {
        (Some(place), Some(text)) => {
            buffer.set_string(place.0, place.1, text.as_str(), fg, bg);
        },
        _ => {},
    }
}

/// Writes x label `i` of `count`, which is `width` columns wide, into row
/// `row`: it ends where its share of the plot's width lies. A label that
/// would start left of the grid is not written.
pub fn draw_x_label(
    buffer: &mut Buffer,
    row: u16,
    label: &str,
    width: usize,
    i: usize,
    count: usize,
    plot: &Rect,
    fg: Color,
    bg: Color,
)
    requires
        plot.on_screen(),
        2 <= count,
        i < count,
        plot.width >= 1,
    ensures
        final(buffer).area() == old(buffer).area(),
        final(buffer)@ == place_text(
            old(buffer)@,
            plot.x + spread(i as int, count as int, plot.width as int) - width,
            row as int,
            label@,
            fg,
            bg,
        ),
{
    proof {
        lemma_spread_in_extent(i as int, count as int, plot.width as int);
        assert(i * (plot.width - 1) <= 0xffff_ffff_ffff_ffff * 0xffff) by (nonlinear_arith)
            requires
                0 <= i <= 0xffff_ffff_ffff_ffff,
                0 <= plot.width - 1 <= 0xffff,
        ;
    }
    let share: u128 = i as u128 * ((plot.width - 1) as u128) / ((count - 1) as u128);
    let end: u32 = plot.x as u32 + share as u32;
    if width <= end as usize {
        buffer.set_string((end - width as u32) as u16, row, label, fg, bg);
    }
}

/// Writes the x labels into row `row`, spread evenly below the plot.
pub fn draw_x_labels(buffer: &mut Buffer, row: u16, labels: &Vec<String>, plot: &Rect, fg: Color, bg: Color)
    requires
        plot.on_screen(),
    ensures
        final(buffer).area() == old(buffer).area(),
        final(buffer)@ == with_x_labels(old(buffer)@, row as int, texts(labels@), *plot, fg, bg),
{
    let count: usize = labels.len();
    let measured = measure(labels);
    if count < 2 || !total_below(&measured, plot.width) {
        return;
    }
    let ghost all = texts(labels@);
    let mut i: usize = 0;
    while i < count
        invariant
            i <= count,
            2 <= count,
            count == labels.len(),
            plot.width >= 1,
            plot.on_screen(),
            all == texts(labels@),
            measured.len() == count,
            as_nats(measured@) == widths(all),
            buffer.area() == old(buffer).area(),
            buffer@ == x_labels_drawn(old(buffer)@, row as int, all, *plot, fg, bg, i as nat),
        decreases count - i,
    {
        assert(measured[i as int] == as_nats(measured@)[i as int]);
        draw_x_label(buffer, row, labels[i].as_str(), measured[i], i, count, plot, fg, bg);
        i += 1;
    }
}

/// Writes the y labels from column `column` on, spread evenly beside the
/// plot, the last of them at the top.
pub fn draw_y_labels(buffer: &mut Buffer, column: u16, labels: &Vec<String>, plot: &Rect, fg: Color, bg: Color)
    requires
        plot.on_screen(),
    ensures
        final(buffer).area() == old(buffer).area(),
        final(buffer)@ == with_y_labels(old(buffer)@, column as int, texts(labels@), *plot, fg, bg),
{
    let count: usize = labels.len();
    if count < 2 || plot.height < 1 {
        return;
    }
    let ghost all = texts(labels@);
    let mut i: usize = 0;
    while i < count
        invariant
            i <= count,
            2 <= count,
            count == labels.len(),
            plot.height >= 1,
            plot.on_screen(),
            all == texts(labels@),
            buffer.area() == old(buffer).area(),
            buffer@ == y_labels_drawn(old(buffer)@, column as int, all, *plot, fg, bg, i as nat),
        decreases count - i,
    {
        proof {
            lemma_spread_in_extent(i as int, count as int, plot.height as int);
            assert(i * (plot.height - 1) <= 0xffff_ffff_ffff_ffff * 0xffff) by (nonlinear_arith)
                requires
                    0 <= i <= 0xffff_ffff_ffff_ffff,
                    0 <= plot.height - 1 <= 0xffff,
            ;
        }
        let share: u128 = i as u128 * ((plot.height - 1) as u128) / ((count - 1) as u128);
        let row: u16 = plot.y + share as u16;
        buffer.set_string(column, row, labels[count - 1 - i].as_str(), fg, bg);
        i += 1;
    }
}

/// Writes `len` cells of row `y`, from column `x` on.
pub fn draw_h_line(buffer: &mut Buffer, x: u16, y: u16, len: u16, symbol: char, fg: Color, bg: Color)
    ensures
        final(buffer).area() == old(buffer).area(),
        final(buffer)@ == h_line(old(buffer)@, x as int, y as int, len as int, Cell { symbol, fg, bg }),
{
    let ghost cell = Cell { symbol, fg, bg };
    let mut k: u16 = 0;
    proof {
        buffer.lemma_positions();
        assert(buffer@ =~= h_line(old(buffer)@, x as int, y as int, 0, cell));
    }
    while k < len && k <= u16::MAX - x
        invariant
            k <= len,
            cell == (Cell { symbol, fg, bg }),
            buffer.area() == old(buffer).area(),
            buffer@ == h_line(old(buffer)@, x as int, y as int, k as int, cell),
        decreases len - k,
    {
        buffer.update_cell(x + k, y, symbol, fg, bg);
        proof {
            assert(buffer@ =~= h_line(old(buffer)@, x as int, y as int, k + 1, cell));
        }
        k += 1;
    }
    proof {
        old(buffer).lemma_positions();
        assert(buffer@ =~= h_line(old(buffer)@, x as int, y as int, len as int, cell));
    }
}

/// Writes `len` cells of column `x`, from row `y` on.
pub fn draw_v_line(buffer: &mut Buffer, x: u16, y: u16, len: u16, symbol: char, fg: Color, bg: Color)
    ensures
        final(buffer).area() == old(buffer).area(),
        final(buffer)@ == v_line(old(buffer)@, x as int, y as int, len as int, Cell { symbol, fg, bg }),
{
    let ghost cell = Cell { symbol, fg, bg };
    let mut k: u16 = 0;
    proof {
        buffer.lemma_positions();
        assert(buffer@ =~= v_line(old(buffer)@, x as int, y as int, 0, cell));
    }
    while k < len && k <= u16::MAX - y
        invariant
            k <= len,
            cell == (Cell { symbol, fg, bg }),
            buffer.area() == old(buffer).area(),
            buffer@ == v_line(old(buffer)@, x as int, y as int, k as int, cell),
        decreases len - k,
    {
        buffer.update_cell(x, y + k, symbol, fg, bg);
        proof {
            assert(buffer@ =~= v_line(old(buffer)@, x as int, y as int, k + 1, cell));
        }
        k += 1;
    }
    proof {
        old(buffer).lemma_positions();
        assert(buffer@ =~= v_line(old(buffer)@, x as int, y as int, len as int, cell));
    }
}

/// Draws the axis lines and the corner where they meet.
pub fn draw_axes(
    buffer: &mut Buffer,
    axis_x: Option<u16>,
    axis_y: Option<u16>,
    plot: &Rect,
    x_color: Color,
    y_color: Color,
    bg: Color,
)
    ensures
        final(buffer).area() == old(buffer).area(),
        final(buffer)@ == with_axes(old(buffer)@, axis_x, axis_y, *plot, x_color, y_color, bg),
{
    if let Some(row) = axis_x {
        draw_h_line(buffer, plot.x, row, plot.width, HORIZONTAL, x_color, bg);
    }
    if let Some(column) = axis_y {
        draw_v_line(buffer, column, plot.y, plot.height, VERTICAL, y_color, bg);
    }
    if let Some(row) = axis_x {
        if let Some(column) = axis_y {
            buffer.update_cell(column, row, BOTTOM_LEFT, x_color, bg);
        }
    }
}

/// The cell that marks a data point.
pub open spec fn marker(color: Color, bg: Color) -> Cell {
    Cell { symbol: BLACK_CIRCLE, fg: color, bg }
}

/// The position of the cell that `sample` is drawn in: its offsets along
/// both axes, from the plot's top-left corner. A sample that lies outside
/// the bounds of an axis, or against an axis whose bounds are equal, has
/// none.
pub open spec fn sample_cell(sample: (int, int), x_axis: AxisView, y_axis: AxisView, plot: Rect) -> Option<
    (int, int),
> {
    match (
        offset_of(sample.0, x_axis.min, x_axis.max, plot.width as int),
        offset_of(sample.1, y_axis.min, y_axis.max, plot.height as int),
    ) {
        (Some(dx), Some(dy)) => Some((plot.x + dx, plot.y + dy)),
        _ => None,
    }
}

/// `g` with the marker of `sample` in `color`, if the sample has a cell.
pub open spec fn with_sample(
    g: Grid,
    sample: (int, int),
    x_axis: AxisView,
    y_axis: AxisView,
    plot: Rect,
    color: Color,
    bg: Color,
) -> Grid {
    match sample_cell(sample, x_axis, y_axis, plot) {
        Some(p) => put(g, p.0, p.1, marker(color, bg)),
        None => g,
    }
}

/// `g` with the markers of the first `k` samples of `data`, in their order.
pub open spec fn samples_drawn(
    g: Grid,
    data: Seq<(int, int)>,
    x_axis: AxisView,
    y_axis: AxisView,
    plot: Rect,
    color: Color,
    bg: Color,
    k: nat,
) -> Grid
    decreases k,
{
    if k == 0 {
        g
    } else {
        with_sample(
            samples_drawn(g, data, x_axis, y_axis, plot, color, bg, (k - 1) as nat),
            data[k - 1],
            x_axis,
            y_axis,
            plot,
            color,
            bg,
        )
    }
}

/// `g` with the markers of all samples of `dataset`.
pub open spec fn with_dataset(
    g: Grid,
    dataset: DatasetView,
    x_axis: AxisView,
    y_axis: AxisView,
    plot: Rect,
    bg: Color,
) -> Grid {
    samples_drawn(g, dataset.data, x_axis, y_axis, plot, dataset.color, bg, dataset.data.len())
}

/// `g` with the markers of the first `k` of `datasets`, in their order.
pub open spec fn datasets_drawn(
    g: Grid,
    datasets: Seq<DatasetView>,
    x_axis: AxisView,
    y_axis: AxisView,
    plot: Rect,
    bg: Color,
    k: nat,
) -> Grid
    decreases k,
{
    if k == 0 {
        g
    } else {
        with_dataset(
            datasets_drawn(g, datasets, x_axis, y_axis, plot, bg, (k - 1) as nat),
            datasets[k - 1],
            x_axis,
            y_axis,
            plot,
            bg,
        )
    }
}

/// `g` with the markers of all of `datasets`.
pub open spec fn with_datasets(
    g: Grid,
    datasets: Seq<DatasetView>,
    x_axis: AxisView,
    y_axis: AxisView,
    plot: Rect,
    bg: Color,
) -> Grid {
    datasets_drawn(g, datasets, x_axis, y_axis, plot, bg, datasets.len())
}

/// What a list of datasets holds.
pub open spec fn dataset_views(datasets: Seq<Dataset>) -> Seq<DatasetView> {
    Seq::new(datasets.len(), |i: int| datasets[i]@)
}

/// Draws the marker of one sample, if the sample has a cell.
pub fn draw_sample(
    buffer: &mut Buffer,
    sample: (i64, i64),
    x_axis: &Axis,
    y_axis: &Axis,
    plot: &Rect,
    color: Color,
    bg: Color,
)
    requires
        plot.on_screen(),
    ensures
        final(buffer).area() == old(buffer).area(),
        final(buffer)@ == with_sample(
            old(buffer)@,
            (sample.0 as int, sample.1 as int),
            x_axis@,
            y_axis@,
            *plot,
            color,
            bg,
        ),
{
    let dx = scale(sample.0, x_axis.bounds[0], x_axis.bounds[1], plot.width);
    let dy = scale(sample.1, y_axis.bounds[0], y_axis.bounds[1], plot.height);
    match (dx, dy) {
        (Some(dx), Some(dy)) => {
            buffer.update_cell(plot.x + dx, plot.y + dy, BLACK_CIRCLE, color, bg);
        },
        _ => {},
    }
}

/// Draws the markers of `dataset`, sample by sample.
pub fn draw_dataset(buffer: &mut Buffer, dataset: &Dataset, x_axis: &Axis, y_axis: &Axis, plot: &Rect, bg: Color)
    requires
        plot.on_screen(),
    ensures
        final(buffer).area() == old(buffer).area(),
        final(buffer)@ == with_dataset(old(buffer)@, dataset@, x_axis@, y_axis@, *plot, bg),
{
    let count: usize = dataset.data.len();
    let mut i: usize = 0;
    while i < count
        invariant
            i <= count,
            count == dataset.data.len(),
            plot.on_screen(),
            buffer.area() == old(buffer).area(),
            buffer@ == samples_drawn(
                old(buffer)@,
                dataset@.data,
                x_axis@,
                y_axis@,
                *plot,
                dataset.color,
                bg,
                i as nat,
            ),
        decreases count - i,
    {
        draw_sample(buffer, dataset.data[i], x_axis, y_axis, plot, dataset.color, bg);
        i += 1;
    }
}

/// Draws the markers of `datasets`, one dataset after the other.
pub fn draw_datasets(
    buffer: &mut Buffer,
    datasets: &Vec<Dataset>,
    x_axis: &Axis,
    y_axis: &Axis,
    plot: &Rect,
    bg: Color,
)
    requires
        plot.on_screen(),
    ensures
        final(buffer).area() == old(buffer).area(),
        final(buffer)@ == with_datasets(
            old(buffer)@,
            dataset_views(datasets@),
            x_axis@,
            y_axis@,
            *plot,
            bg,
        ),
{
    let count: usize = datasets.len();
    let mut i: usize = 0;
    while i < count
        invariant
            i <= count,
            count == datasets.len(),
            plot.on_screen(),
            buffer.area() == old(buffer).area(),
            buffer@ == datasets_drawn(
                old(buffer)@,
                dataset_views(datasets@),
                x_axis@,
                y_axis@,
                *plot,
                bg,
                i as nat,
            ),
        decreases count - i,
    {
        draw_dataset(buffer, &datasets[i], x_axis, y_axis, plot, bg);
        i += 1;
    }
}

/// Whether a sample of `data` is drawn at `p`.
pub open spec fn drawn_at(data: Seq<(int, int)>, x_axis: AxisView, y_axis: AxisView, plot: Rect, p: (int, int)) -> bool {
    exists|i: int| 0 <= i < data.len() && sample_cell(#[trigger] data[i], x_axis, y_axis, plot) == Some(p)
}

/// A sample that is drawn lies in the plot or on the column or row just
/// past it: the low end of an axis maps to the full extent.
pub proof fn lemma_sample_cell_near_plot(sample: (int, int), x_axis: AxisView, y_axis: AxisView, plot: Rect)
    requires
        sample_cell(sample, x_axis, y_axis, plot) is Some,
    ensures
        ({
            let p = sample_cell(sample, x_axis, y_axis, plot)->0;
            &&& plot.x <= p.0 <= plot.x + plot.width
            &&& plot.y <= p.1 <= plot.y + plot.height
        }),
{
    lemma_scaled_in_extent(sample.0, x_axis.min, x_axis.max, plot.width as int);
    lemma_scaled_in_extent(sample.1, y_axis.min, y_axis.max, plot.height as int);
}

/// Placing samples keeps their order along each axis, turned round: of two
/// samples that are drawn, the one with the greater x never lies in a
/// column further right, and the one with the greater y never in a row
/// further down.
pub proof fn lemma_sample_cell_monotonic(
    first: (int, int),
    second: (int, int),
    x_axis: AxisView,
    y_axis: AxisView,
    plot: Rect,
)
    requires
        sample_cell(first, x_axis, y_axis, plot) is Some,
        sample_cell(second, x_axis, y_axis, plot) is Some,
    ensures
        ({
            let p = sample_cell(first, x_axis, y_axis, plot)->0;
            let q = sample_cell(second, x_axis, y_axis, plot)->0;
            &&& first.0 <= second.0 ==> q.0 <= p.0
            &&& first.1 <= second.1 ==> q.1 <= p.1
        }),
{
    if first.0 <= second.0 {
        lemma_scaled_monotonic(first.0, second.0, x_axis.min, x_axis.max, plot.width as int);
    }
    if first.1 <= second.1 {
        lemma_scaled_monotonic(first.1, second.1, y_axis.min, y_axis.max, plot.height as int);
    }
}

/// A sample outside the bounds of an axis leaves the grid as it is.
pub proof fn lemma_sample_out_of_bounds(
    g: Grid,
    sample: (int, int),
    x_axis: AxisView,
    y_axis: AxisView,
    plot: Rect,
    color: Color,
    bg: Color,
)
    requires
        sample.0 < x_axis.min || sample.0 > x_axis.max || sample.1 < y_axis.min || sample.1
            > y_axis.max,
    ensures
        with_sample(g, sample, x_axis, y_axis, plot, color, bg) == g,
{
}

/// A sample against an axis whose bounds are equal leaves the grid as it is.
pub proof fn lemma_sample_on_empty_axis(
    g: Grid,
    sample: (int, int),
    x_axis: AxisView,
    y_axis: AxisView,
    plot: Rect,
    color: Color,
    bg: Color,
)
    requires
        x_axis.min == x_axis.max || y_axis.min == y_axis.max,
    ensures
        with_sample(g, sample, x_axis, y_axis, plot, color, bg) == g,
{
}

/// Drawing samples adds no position to the grid and takes none away.
pub proof fn lemma_samples_keep_positions(
    g: Grid,
    data: Seq<(int, int)>,
    x_axis: AxisView,
    y_axis: AxisView,
    plot: Rect,
    color: Color,
    bg: Color,
    k: nat,
)
    ensures
        samples_drawn(g, data, x_axis, y_axis, plot, color, bg, k).dom() =~= g.dom(),
    decreases k,
{
    if k > 0 {
        lemma_samples_keep_positions(g, data, x_axis, y_axis, plot, color, bg, (k - 1) as nat);
    }
}

/// Drawing datasets adds no position to the grid and takes none away.
pub proof fn lemma_datasets_keep_positions(
    g: Grid,
    datasets: Seq<DatasetView>,
    x_axis: AxisView,
    y_axis: AxisView,
    plot: Rect,
    bg: Color,
    k: nat,
)
    ensures
        datasets_drawn(g, datasets, x_axis, y_axis, plot, bg, k).dom() =~= g.dom(),
    decreases k,
{
    if k > 0 {
        let before = datasets_drawn(g, datasets, x_axis, y_axis, plot, bg, (k - 1) as nat);
        lemma_datasets_keep_positions(g, datasets, x_axis, y_axis, plot, bg, (k - 1) as nat);
        let d = datasets[k - 1];
        lemma_samples_keep_positions(before, d.data, x_axis, y_axis, plot, d.color, bg, d.data.len());
    }
}

/// After the first `k` samples of a dataset were drawn, a cell holds the
/// dataset's marker if one of them is drawn there, and what it held before
/// if none is.
pub proof fn lemma_samples_drawn(
    g: Grid,
    data: Seq<(int, int)>,
    x_axis: AxisView,
    y_axis: AxisView,
    plot: Rect,
    color: Color,
    bg: Color,
    k: nat,
    p: (int, int),
)
    requires
        k <= data.len(),
        g.dom().contains(p),
    ensures
        samples_drawn(g, data, x_axis, y_axis, plot, color, bg, k)[p] == if drawn_at(
            data.take(k as int),
            x_axis,
            y_axis,
            plot,
            p,
        ) {
            marker(color, bg)
        } else {
            g[p]
        },
    decreases k,
{
    if k > 0 {
        lemma_samples_drawn(g, data, x_axis, y_axis, plot, color, bg, (k - 1) as nat, p);
        lemma_samples_keep_positions(g, data, x_axis, y_axis, plot, color, bg, (k - 1) as nat);
        let earlier = data.take(k - 1);
        let now = data.take(k as int);
        if sample_cell(data[k - 1], x_axis, y_axis, plot) == Some(p) {
            assert(now[k - 1] == data[k - 1]);
        } else if drawn_at(earlier, x_axis, y_axis, plot, p) {
            let i = choose|i: int|
                0 <= i < earlier.len() && sample_cell(#[trigger] earlier[i], x_axis, y_axis, plot)
                    == Some(p);
            assert(now[i] == earlier[i]);
        } else if drawn_at(now, x_axis, y_axis, plot, p) {
            let i = choose|i: int|
                0 <= i < now.len() && sample_cell(#[trigger] now[i], x_axis, y_axis, plot) == Some(
                    p,
                );
            assert(earlier[i] == now[i]);
        }
    }
}

/// After a dataset was drawn, a cell holds the dataset's marker if a sample
/// is drawn there, and what it held before if none is.
pub proof fn lemma_with_dataset(
    g: Grid,
    dataset: DatasetView,
    x_axis: AxisView,
    y_axis: AxisView,
    plot: Rect,
    bg: Color,
    p: (int, int),
)
    requires
        g.dom().contains(p),
    ensures
        with_dataset(g, dataset, x_axis, y_axis, plot, bg)[p] == if drawn_at(
            dataset.data,
            x_axis,
            y_axis,
            plot,
            p,
        ) {
            marker(dataset.color, bg)
        } else {
            g[p]
        },
{
    lemma_samples_drawn(
        g,
        dataset.data,
        x_axis,
        y_axis,
        plot,
        dataset.color,
        bg,
        dataset.data.len(),
        p,
    );
    assert(dataset.data.take(dataset.data.len() as int) =~= dataset.data);
}

/// A cell in which none of the datasets from `from` on draws holds after
/// the first `k` of them what it held after the first `from`.
pub proof fn lemma_untouched_cell_stays(
    g: Grid,
    datasets: Seq<DatasetView>,
    x_axis: AxisView,
    y_axis: AxisView,
    plot: Rect,
    bg: Color,
    k: nat,
    p: (int, int),
    from: nat,
)
    requires
        from <= k <= datasets.len(),
        g.dom().contains(p),
        forall|j: int| from <= j < k ==> !drawn_at(#[trigger] datasets[j].data, x_axis, y_axis, plot, p),
    ensures
        datasets_drawn(g, datasets, x_axis, y_axis, plot, bg, k)[p] == datasets_drawn(
            g,
            datasets,
            x_axis,
            y_axis,
            plot,
            bg,
            from,
        )[p],
    decreases k,
{
    if from < k {
        let before = datasets_drawn(g, datasets, x_axis, y_axis, plot, bg, (k - 1) as nat);
        lemma_untouched_cell_stays(g, datasets, x_axis, y_axis, plot, bg, (k - 1) as nat, p, from);
        lemma_datasets_keep_positions(g, datasets, x_axis, y_axis, plot, bg, (k - 1) as nat);
        lemma_with_dataset(before, datasets[k - 1], x_axis, y_axis, plot, bg, p);
    }
}

/// Where several datasets draw into one cell, the last of them shows: the
/// cell holds its marker, whatever the earlier ones drew there.
pub proof fn lemma_last_dataset_shows(
    g: Grid,
    datasets: Seq<DatasetView>,
    x_axis: AxisView,
    y_axis: AxisView,
    plot: Rect,
    bg: Color,
    p: (int, int),
    last: int,
)
    requires
        g.dom().contains(p),
        0 <= last < datasets.len(),
        drawn_at(datasets[last].data, x_axis, y_axis, plot, p),
        forall|j: int|
            last < j < datasets.len() ==> !drawn_at(
                #[trigger] datasets[j].data,
                x_axis,
                y_axis,
                plot,
                p,
            ),
    ensures
        with_datasets(g, datasets, x_axis, y_axis, plot, bg)[p] == marker(datasets[last].color, bg),
{
    let upto = datasets_drawn(g, datasets, x_axis, y_axis, plot, bg, last as nat);
    lemma_datasets_keep_positions(g, datasets, x_axis, y_axis, plot, bg, last as nat);
    lemma_with_dataset(upto, datasets[last], x_axis, y_axis, plot, bg, p);
    lemma_untouched_cell_stays(
        g,
        datasets,
        x_axis,
        y_axis,
        plot,
        bg,
        datasets.len(),
        p,
        (last + 1) as nat,
    );
}

} // verus!
