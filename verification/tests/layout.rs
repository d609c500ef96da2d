use termchart::axis::Axis;
use termchart::chart::Chart;
use termchart::geometry::Rect;
use termchart::layout::{layout, layout_measured, ChartLayout, Cursor};

fn labelled(labels: &[&str]) -> Axis {
    Axis::default().bounds([0, 10]).labels(labels)
}

#[test]
fn two_labelled_axes_in_twenty_by_ten() {
    let area = Rect::new(0, 0, 20, 10);
    let l = layout(&area, &area, &labelled(&["0", "9"]), &labelled(&["0", "9"]));
    assert_eq!(l.label_x, Some(9));
    assert_eq!(l.label_y, Some(0));
    assert_eq!(l.axis_x, Some(8));
    assert_eq!(l.axis_y, Some(1));
    assert_eq!(l.graph_area, Rect::new(2, 0, 18, 7));
    assert_eq!(l.legend_x, None);
    assert_eq!(l.legend_y, None);
}

#[test]
fn plot_lies_within_the_drawable_rectangle() {
    let outer = Rect::new(3, 4, 30, 12);
    let inner = Rect::new(4, 5, 28, 10);
    assert!(outer.encloses(&inner));
    let l = layout(&inner, &outer, &labelled(&["a", "b", "c"]), &labelled(&["10", "200"]));
    assert_eq!(l.label_x, Some(10));
    assert_eq!(l.axis_x, Some(9));
    assert_eq!(l.label_y, Some(1));
    assert_eq!(l.axis_y, Some(4));
    assert_eq!(l.graph_area, Rect::new(8, 5, 23, 8));
    assert!(inner.encloses(&l.graph_area));
}

#[test]
fn deep_top_margin_lets_the_plot_reach_below() {
    let outer = Rect::new(0, 0, 10, 15);
    let inner = Rect::new(0, 5, 10, 10);
    let l = layout(&inner, &outer, &Axis::default(), &Axis::default());
    assert_eq!(l.graph_area, Rect::new(0, 5, 10, 14));
    assert!(!inner.encloses(&l.graph_area));
}

#[test]
fn axis_without_labels_claims_nothing() {
    let area = Rect::new(0, 0, 20, 10);
    let l = layout(&area, &area, &Axis::default(), &labelled(&["0", "9"]));
    assert_eq!(l.label_x, None);
    assert_eq!(l.axis_x, None);
    assert_eq!(l.label_y, Some(0));
    assert_eq!(l.axis_y, Some(1));
    assert_eq!(l.graph_area, Rect::new(2, 0, 18, 9));

    let l = layout(&area, &area, &labelled(&["0", "9"]), &Axis::default());
    assert_eq!(l.label_y, None);
    assert_eq!(l.axis_y, None);
    assert_eq!(l.label_x, Some(9));
    assert_eq!(l.axis_x, Some(8));
    assert_eq!(l.graph_area, Rect::new(0, 0, 20, 7));

    let l = layout(&area, &area, &Axis::default(), &Axis::default());
    assert_eq!(l.label_x, None);
    assert_eq!(l.label_y, None);
    assert_eq!(l.axis_x, None);
    assert_eq!(l.axis_y, None);
    assert_eq!(l.graph_area, Rect::new(0, 0, 20, 9));
}

#[test]
fn layout_is_repeatable() {
    let outer = Rect::new(1, 1, 40, 20);
    let inner = Rect::new(2, 2, 38, 18);
    let x = labelled(&["0", "5", "10"]).title("time");
    let y = labelled(&["low", "high"]).title("load");
    let first = layout(&inner, &outer, &x, &y);
    let second = layout(&inner, &outer, &x, &y);
    assert_eq!(first, second);
    let chart = Chart::default().x_axis(x).y_axis(y);
    assert_eq!(chart.layout(&inner, &outer), first);
}

#[test]
fn titles_are_placed_in_a_roomy_plot() {
    let area = Rect::new(0, 0, 20, 10);
    let x = labelled(&["0", "9"]).title("X");
    let y = labelled(&["0", "9"]).title("Yy");
    let l = layout(&area, &area, &x, &y);
    assert_eq!(l.graph_area, Rect::new(2, 0, 18, 7));
    assert_eq!(l.legend_x, Some((19, 7)));
    assert_eq!(l.legend_y, Some((3, 0)));
}

#[test]
fn title_needs_a_wider_and_higher_plot() {
    let area = Rect::new(0, 0, 5, 10);
    let x = Axis::default().title("12345");
    let y = Axis::default().title("1234");
    let l = layout(&area, &area, &x, &y);
    assert_eq!(l.graph_area, Rect::new(0, 0, 5, 9));
    assert_eq!(l.legend_x, None);
    assert_eq!(l.legend_y, None);

    let x = Axis::default().title("1234");
    let y = Axis::default().title("123");
    let l = layout(&area, &area, &x, &y);
    assert_eq!(l.legend_x, Some((1, 9)));
    assert_eq!(l.legend_y, Some((1, 0)));

    let low = Rect::new(0, 0, 5, 3);
    let l = layout(&low, &low, &x, &y);
    assert_eq!(l.graph_area, Rect::new(0, 0, 5, 2));
    assert_eq!(l.legend_x, None);
    assert_eq!(l.legend_y, None);
}

#[test]
fn wide_characters_take_two_columns_of_labels() {
    let area = Rect::new(0, 0, 20, 10);
    let y = Axis::default().labels(&["a", "\u{65e5}\u{672c}"]);
    let l = layout(&area, &area, &Axis::default(), &y);
    assert_eq!(l.label_y, Some(0));
    assert_eq!(l.axis_y, Some(4));
    assert_eq!(l.graph_area, Rect::new(5, 0, 15, 9));
}

#[test]
fn labels_too_wide_are_passed_over() {
    let area = Rect::new(0, 0, 4, 10);
    let y = Axis::default().labels(&["abcd", "e"]);
    let l = layout(&area, &area, &Axis::default(), &y);
    assert_eq!(l.label_y, None);
    assert_eq!(l.axis_y, Some(0));
    assert_eq!(l.graph_area, Rect::new(1, 0, 3, 9));
}

#[test]
fn no_rows_or_columns_leave_no_plot() {
    let x = labelled(&["0", "9"]).title("x");
    let y = labelled(&["0", "9"]).title("y");
    for area in [Rect::new(0, 0, 0, 0), Rect::new(0, 0, 20, 0), Rect::new(0, 0, 0, 10)] {
        assert_eq!(layout(&area, &area, &x, &y), ChartLayout::default());
        assert_eq!(layout(&area, &area, &Axis::default(), &Axis::default()), ChartLayout::default());
    }
}

#[test]
fn no_rows_below_a_margin_leave_no_plot() {
    let outer = Rect::new(0, 0, 10, 10);
    let x = labelled(&["0", "9"]).title("x");
    let y = labelled(&["0", "9"]).title("y");
    for inner in [Rect::new(0, 5, 10, 0), Rect::new(3, 5, 0, 4), Rect::new(10, 10, 0, 0)] {
        assert_eq!(layout(&inner, &outer, &x, &y), ChartLayout::default());
        assert_eq!(layout(&inner, &outer, &Axis::default(), &Axis::default()), ChartLayout::default());
        assert_eq!(
            layout_measured(&inner, &outer, true, Some(1), Some(1), Some(1)),
            ChartLayout::default()
        );
    }
    assert_eq!(
        ChartLayout::default(),
        ChartLayout {
            legend_x: None,
            legend_y: None,
            label_x: None,
            label_y: None,
            axis_x: None,
            axis_y: None,
            graph_area: Rect::new(0, 0, 0, 0),
        }
    );
}

#[test]
fn layout_from_measures_alone() {
    let area = Rect::new(0, 0, 20, 10);
    let expected = ChartLayout {
        legend_x: Some((19, 7)),
        legend_y: Some((3, 0)),
        label_x: Some(9),
        label_y: Some(0),
        axis_x: Some(8),
        axis_y: Some(1),
        graph_area: Rect::new(2, 0, 18, 7),
    };
    assert_eq!(layout_measured(&area, &area, true, Some(1), Some(1), Some(1)), expected);
    let x = labelled(&["0", "9"]).title("X");
    let y = labelled(&["0", "9"]).title("Y");
    assert_eq!(layout(&area, &area, &x, &y), expected);

    let wide = layout_measured(&area, &area, false, Some(30), Some(20), Some(18));
    assert_eq!(wide.label_y, None);
    assert_eq!(wide.axis_y, Some(0));
    assert_eq!(wide.graph_area, Rect::new(1, 0, 19, 9));
    assert_eq!(wide.legend_x, None);
    assert_eq!(wide.legend_y, None);
    let huge = layout_measured(&area, &area, false, Some(usize::MAX), Some(usize::MAX), None);
    assert_eq!(huge.label_y, None);
    assert_eq!(huge.legend_x, None);
    assert_eq!(huge.graph_area, Rect::new(1, 0, 19, 9));
}

#[test]
fn two_rows_are_too_few_for_a_plot() {
    let area = Rect::new(0, 0, 20, 2);
    let l = layout(&area, &area, &labelled(&["0", "9"]), &Axis::default());
    assert_eq!(l.label_x, None);
    assert_eq!(l.axis_x, None);
    assert_eq!(l.graph_area, Rect::default());

    let area = Rect::new(0, 0, 20, 3);
    let l = layout(&area, &area, &labelled(&["0", "9"]), &Axis::default());
    assert_eq!(l.label_x, Some(2));
    assert_eq!(l.axis_x, None);
    assert_eq!(l.graph_area, Rect::default());
}

#[test]
fn steps_move_the_cursor_one_by_one() {
    let outer = Rect::new(0, 0, 20, 10);
    let inner = Rect::new(1, 1, 18, 8);
    let mut cursor = Cursor::start(&inner, &outer);
    assert_eq!(cursor.reserve_row(false), None);
    assert_eq!(cursor.reserve_row(true), Some(8));
    assert_eq!(cursor.reserve_columns(true, 3, 18), Some(1));
    assert_eq!(cursor.reserve_columns(true, 14, 18), None);
    assert_eq!(cursor.reserve_columns(false, 1, 18), None);
    assert_eq!(cursor.reserve_row(true), Some(7));
    assert_eq!(cursor.reserve_columns(true, 1, 18), Some(4));
    let plot = cursor.plot(&inner, &outer);
    assert_eq!(plot, Rect::new(5, 1, 13, 6));
    assert_eq!(cursor.x_legend(&plot, Some(3)), Some((15, 6)));
    assert_eq!(cursor.x_legend(&plot, Some(13)), None);
    assert_eq!(cursor.x_legend(&plot, None), None);
    assert_eq!(cursor.y_legend(&plot, Some(11), 1), Some((6, 1)));
    assert_eq!(cursor.y_legend(&plot, Some(12), 1), None);
}
