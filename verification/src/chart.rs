//! The chart: two axes, a list of datasets, and how they are painted.

use crate::axis::{Axis, AxisView};
use crate::block::{framed, Block};
use crate::buffer::{blank_grid, Buffer, Grid};
use crate::dataset::{Dataset, DatasetView};
use crate::geometry::Rect;
use crate::layout::{chart_layout, layout, ChartLayout};
use crate::render::{
    dataset_views, draw_axes, draw_datasets, draw_title, draw_x_labels, draw_y_labels, drawn_at,
    lemma_datasets_keep_positions, lemma_last_dataset_shows, lemma_untouched_cell_stays, marker,
    with_axes, with_datasets, with_title, with_x_labels, with_y_labels,
};
use crate::style::Color;
use vstd::prelude::*;

verus! {

/// A chart: an optional frame, the two axes, the datasets in the order in
/// which they are drawn, and the background color of what the chart writes.
#[derive(Debug)]
pub struct Chart {
    pub block: Option<Block>,
    pub x_axis: Axis,
    pub y_axis: Axis,
    pub datasets: Vec<Dataset>,
    pub bg: Color,
}

/// What a chart holds, as plain mathematical values.
pub struct ChartView {
    pub block: Option<Block>,
    pub x_axis: AxisView,
    pub y_axis: AxisView,
    pub datasets: Seq<DatasetView>,
    pub bg: Color,
}

impl ChartView {
    /// The chart before anything is configured.
    pub open spec fn empty() -> ChartView {
        ChartView {
            block: None,
            x_axis: AxisView::empty(),
            y_axis: AxisView::empty(),
            datasets: Seq::empty(),
            bg: Color::Reset,
        }
    }
}

impl View for Chart {
    type V = ChartView;

    open spec fn view(&self) -> ChartView {
        ChartView {
            block: self.block,
            x_axis: self.x_axis@,
            y_axis: self.y_axis@,
            datasets: dataset_views(self.datasets@),
            bg: self.bg,
        }
    }
}

impl Default for Chart {
    fn default() -> (chart: Chart)
        ensures
            chart@ == ChartView::empty(),
    {
        let chart = Chart {
            block: None,
            x_axis: Axis::default(),
            y_axis: Axis::default(),
            datasets: Vec::new(),
            bg: Color::Reset,
        };
        assert(chart@.datasets =~= Seq::empty());
        chart
    }
}

/// The rectangle that is left for the chart inside its frame, if it has
/// one.
pub open spec fn drawable(block: Option<Block>, area: Rect) -> Rect {
    match block {
        Some(_) => framed(area),
        None => area,
    }
}

/// The grid before the chart is drawn: the frame, or nothing.
pub open spec fn base_grid(block: Option<Block>, area: Rect) -> Grid {
    match block {
        Some(b) => b.frame(area.width as int, area.height as int),
        None => blank_grid(area.width as int, area.height as int),
    }
}

/// The layout of `chart` in `area`.
pub open spec fn layout_in(chart: ChartView, area: Rect) -> ChartLayout {
    chart_layout(drawable(chart.block, area), area, chart.x_axis, chart.y_axis)
}

/// The plot of `layout` in the coordinates of a buffer for `area`.
pub open spec fn plot_in(layout: ChartLayout, area: Rect) -> Rect {
    Rect {
        x: (layout.graph_area.x - area.x) as u16,
        y: (layout.graph_area.y - area.y) as u16,
        width: layout.graph_area.width,
        height: layout.graph_area.height,
    }
}

/// The grid with everything but the data: the frame, the titles of the
/// axes, the labels, the axis lines. The chart must have a plot.
pub open spec fn decorated(chart: ChartView, area: Rect) -> Grid {
    let layout = layout_in(chart, area);
    let plot = plot_in(layout, area);
    let x = chart.x_axis;
    let y = chart.y_axis;
    let g0 = base_grid(chart.block, area);
    let g1 = with_title(g0, layout.legend_x, x.title, x.title_color, chart.bg);
    let g2 = with_title(g1, layout.legend_y, y.title, y.title_color, chart.bg);
    let g3 = match (layout.label_x, x.labels) {
        (Some(row), Some(labels)) => with_x_labels(g2, row as int, labels, plot, x.labels_color, chart.bg),
        _ => g2,
    };
    let g4 = match (layout.label_y, y.labels) {
        (Some(column), Some(labels)) => with_y_labels(
            g3,
            column as int,
            labels,
            plot,
            y.labels_color,
            chart.bg,
        ),
        _ => g3,
    };
    with_axes(g4, layout.axis_x, layout.axis_y, plot, x.color, y.color, chart.bg)
}

/// What `chart` shows in a buffer for `area`. A chart whose plot found no
/// room shows its frame and nothing else. Otherwise the parts are painted
/// one over the other: titles, x labels, y labels, axis lines, and the
/// datasets in their order.
pub open spec fn render(chart: ChartView, area: Rect) -> Grid {
    let layout = layout_in(chart, area);
    if layout.graph_area.is_empty() {
        base_grid(chart.block, area)
    } else {
        with_datasets(
            decorated(chart, area),
            chart.datasets,
            chart.x_axis,
            chart.y_axis,
            plot_in(layout, area),
            chart.bg,
        )
    }
}

impl Chart {
    /// Puts a frame around the chart.
    pub fn block(self, block: Block) -> (chart: Chart)
        ensures
            chart@ == (ChartView { block: Some(block), ..self@ }),
    {
        let mut chart = self;
        chart.block = Some(block);
        chart
    }

    /// Sets the background color of what the chart writes.
    pub fn bg(self, bg: Color) -> (chart: Chart)
        ensures
            chart@ == (ChartView { bg, ..self@ }),
    {
        let mut chart = self;
        chart.bg = bg;
        chart
    }

    /// Sets the x axis.
    pub fn x_axis(self, axis: Axis) -> (chart: Chart)
        ensures
            chart@ == (ChartView { x_axis: axis@, ..self@ }),
    {
        let mut chart = self;
        chart.x_axis = axis;
        chart
    }

    /// Sets the y axis.
    pub fn y_axis(self, axis: Axis) -> (chart: Chart)
        ensures
            chart@ == (ChartView { y_axis: axis@, ..self@ }),
    {
        let mut chart = self;
        chart.y_axis = axis;
        chart
    }

    /// Sets the datasets, in the order in which they are drawn.
    pub fn datasets(self, datasets: Vec<Dataset>) -> (chart: Chart)
        ensures
            chart@ == (ChartView { datasets: dataset_views(datasets@), ..self@ }),
    {
        let mut chart = self;
        chart.datasets = datasets;
        chart
    }

    /// Lays the chart out in the drawable rectangle `inner` of a widget that
    /// was given `outer`.
    pub fn layout(&self, inner: &Rect, outer: &Rect) -> (layout: ChartLayout)
        requires
            outer.contains(*inner),
            outer.on_screen(),
        ensures
            layout == chart_layout(*inner, *outer, self@.x_axis, self@.y_axis),
    {
        layout(inner, outer, &self.x_axis, &self.y_axis)
    }

    /// Paints the chart into a new buffer for `area`.
    pub fn buffer(&self, area: &Rect) -> (buffer: Buffer)
        requires
            area.on_screen(),
        ensures
            buffer.area() == *area,
            buffer@ == render(self@, *area),
    {
        let (mut buffer, inner) = match &self.block {
            Some(b) => (b.buffer(area), b.inner(*area)),
            None => (Buffer::empty(*area), *area),
        };
        let layout = self.layout(&inner, area);
        if layout.graph_area.has_no_cells() {
            return buffer;
        }
        let plot = Rect {
            x: layout.graph_area.x - area.x,
            y: layout.graph_area.y - area.y,
            width: layout.graph_area.width,
            height: layout.graph_area.height,
        };
        let bg = self.bg;
        draw_title(&mut buffer, layout.legend_x, &self.x_axis.title, self.x_axis.title_color, bg);
        draw_title(&mut buffer, layout.legend_y, &self.y_axis.title, self.y_axis.title_color, bg);
        if let Some(row) = layout.label_x {
            if let Some(labels) = &self.x_axis.labels {
                draw_x_labels(&mut buffer, row, labels, &plot, self.x_axis.labels_color, bg);
            }
        }
        if let Some(column) = layout.label_y {
            if let Some(labels) = &self.y_axis.labels {
                draw_y_labels(&mut buffer, column, labels, &plot, self.y_axis.labels_color, bg);
            }
        }
        draw_axes(
            &mut buffer,
            layout.axis_x,
            layout.axis_y,
            &plot,
            self.x_axis.color,
            self.y_axis.color,
            bg,
        );
        draw_datasets(&mut buffer, &self.datasets, &self.x_axis, &self.y_axis, &plot, bg);
        buffer
    }
}

/// Two calls of `Chart::layout` on one chart and the same rectangles give
/// the same layout, field by field: the result is a function of what the
/// axes hold and of the rectangles, and nothing else is read.
pub proof fn lemma_chart_layout_repeatable(
    chart: Chart,
    inner: Rect,
    outer: Rect,
    first: ChartLayout,
    second: ChartLayout,
)
    requires
        outer.contains(inner),
        outer.on_screen(),
        first == chart_layout(inner, outer, chart@.x_axis, chart@.y_axis),
        second == chart_layout(inner, outer, chart@.x_axis, chart@.y_axis),
    ensures
        first == second,
        first.legend_x == second.legend_x,
        first.legend_y == second.legend_y,
        first.label_x == second.label_x,
        first.label_y == second.label_y,
        first.axis_x == second.axis_x,
        first.axis_y == second.axis_y,
        first.graph_area == second.graph_area,
{
}

/// A chart whose plot found no room shows its frame, or nothing, and no
/// label, line or data point.
pub proof fn lemma_empty_plot_shows_no_data(chart: ChartView, area: Rect)
    requires
        layout_in(chart, area).graph_area.is_empty(),
    ensures
        render(chart, area) == base_grid(chart.block, area),
{
}

/// Where several datasets of a chart draw into one cell, the cell shows the
/// marker of the last of them, in its color.
pub proof fn lemma_later_dataset_wins(chart: ChartView, area: Rect, p: (int, int), last: int)
    requires
        !layout_in(chart, area).graph_area.is_empty(),
        render(chart, area).dom().contains(p),
        0 <= last < chart.datasets.len(),
        drawn_at(
            chart.datasets[last].data,
            chart.x_axis,
            chart.y_axis,
            plot_in(layout_in(chart, area), area),
            p,
        ),
        forall|j: int|
            last < j < chart.datasets.len() ==> !drawn_at(
                #[trigger] chart.datasets[j].data,
                chart.x_axis,
                chart.y_axis,
                plot_in(layout_in(chart, area), area),
                p,
            ),
    ensures
        render(chart, area)[p] == marker(chart.datasets[last].color, chart.bg),
{
    let plot = plot_in(layout_in(chart, area), area);
    let g = decorated(chart, area);
    lemma_datasets_keep_positions(
        g,
        chart.datasets,
        chart.x_axis,
        chart.y_axis,
        plot,
        chart.bg,
        chart.datasets.len(),
    );
    lemma_last_dataset_shows(g, chart.datasets, chart.x_axis, chart.y_axis, plot, chart.bg, p, last);
}

/// A cell in which no dataset of a chart draws shows what the frame, the
/// titles, the labels and the axis lines left there.
pub proof fn lemma_data_leaves_other_cells(chart: ChartView, area: Rect, p: (int, int))
    requires
        !layout_in(chart, area).graph_area.is_empty(),
        render(chart, area).dom().contains(p),
        forall|j: int|
            0 <= j < chart.datasets.len() ==> !drawn_at(
                #[trigger] chart.datasets[j].data,
                chart.x_axis,
                chart.y_axis,
                plot_in(layout_in(chart, area), area),
                p,
            ),
    ensures
        render(chart, area)[p] == decorated(chart, area)[p],
{
    let plot = plot_in(layout_in(chart, area), area);
    let g = decorated(chart, area);
    lemma_datasets_keep_positions(
        g,
        chart.datasets,
        chart.x_axis,
        chart.y_axis,
        plot,
        chart.bg,
        chart.datasets.len(),
    );
    lemma_untouched_cell_stays(
        g,
        chart.datasets,
        chart.x_axis,
        chart.y_axis,
        plot,
        chart.bg,
        chart.datasets.len(),
        p,
        0,
    );
}

} // verus!
