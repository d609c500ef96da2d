//! One axis of a chart.

use crate::style::Color;
use crate::text::texts;
use vstd::prelude::*;

verus! {

/// An axis: an optional title, the range of values that it spans, optional
/// tick labels, and its colors.
///
/// `bounds` is `[min, max]`. An axis with `min == max` spans nothing, and no
/// sample is drawn against it.
#[derive(Debug)]
pub struct Axis {
    pub title: Option<String>,
    pub title_color: Color,
    pub bounds: [i64; 2],
    pub labels: Option<Vec<String>>,
    pub labels_color: Color,
    pub color: Color,
}

/// What an axis holds, as plain mathematical values.
pub struct AxisView {
    pub title: Option<Seq<char>>,
    pub title_color: Color,
    pub min: int,
    pub max: int,
    pub labels: Option<Seq<Seq<char>>>,
    pub labels_color: Color,
    pub color: Color,
}

impl AxisView {
    /// The axis before anything is configured.
    pub open spec fn empty() -> AxisView {
        AxisView {
            title: None,
            title_color: Color::Reset,
            min: 0,
            max: 0,
            labels: None,
            labels_color: Color::Reset,
            color: Color::Reset,
        }
    }
}

impl View for Axis {
    type V = AxisView;

    open spec fn view(&self) -> AxisView {
        AxisView {
            title: match self.title {
                Some(t) => Some(t@),
                None => None,
            },
            title_color: self.title_color,
            min: self.bounds[0] as int,
            max: self.bounds[1] as int,
            labels: match self.labels {
                Some(l) => Some(texts(l@)),
                None => None,
            },
            labels_color: self.labels_color,
            color: self.color,
        }
    }
}

impl Default for Axis {
    fn default() -> (axis: Axis)
        ensures
            axis@ == AxisView::empty(),
    {
        Axis {
            title: None,
            title_color: Color::Reset,
            bounds: [0, 0],
            labels: None,
            labels_color: Color::Reset,
            color: Color::Reset,
        }
    }
}

impl Axis {
    /// Sets the title.
    pub fn title(self, title: &str) -> (axis: Axis)
        ensures
            axis@ == (AxisView { title: Some(title@), ..self@ }),
    {
        let mut axis = self;
        axis.title = Some(title.to_owned());
        axis
    }

    /// Sets the color of the title.
    pub fn title_color(self, color: Color) -> (axis: Axis)
        ensures
            axis@ == (AxisView { title_color: color, ..self@ }),
    {
        let mut axis = self;
        axis.title_color = color;
        axis
    }

    /// Sets the range of values, `[min, max]`.
    pub fn bounds(self, bounds: [i64; 2]) -> (axis: Axis)
        ensures
            axis@ == (AxisView { min: bounds[0] as int, max: bounds[1] as int, ..self@ }),
    {
        let mut axis = self;
        axis.bounds = bounds;
        axis
    }

    /// Sets the tick labels, from the low end of the axis to the high end.
    pub fn labels(self, labels: &[&str]) -> (axis: Axis)
        ensures
            axis@ == (AxisView {
                labels: Some(Seq::new(labels@.len(), |i: int| labels@[i]@)),
                ..self@
            }),
    {
        let mut owned: Vec<String> = Vec::new();
        let mut i: usize = 0;
        while i < labels.len()
            invariant
                i <= labels.len(),
                owned.len() == i,
                forall|k: int| 0 <= k < i ==> owned[k]@ == labels@[k]@,
            decreases labels.len() - i,
        {
            owned.push(labels[i].to_owned());
            i += 1;
        }
        assert(texts(owned@) =~= Seq::new(labels@.len(), |i: int| labels@[i]@));
        let mut axis = self;
        axis.labels = Some(owned);
        axis
    }

    /// Sets the color of the tick labels.
    pub fn labels_color(self, color: Color) -> (axis: Axis)
        ensures
            axis@ == (AxisView { labels_color: color, ..self@ }),
    {
        let mut axis = self;
        axis.labels_color = color;
        axis
    }

    /// Sets the color of the axis line.
    pub fn color(self, color: Color) -> (axis: Axis)
        ensures
            axis@ == (AxisView { color, ..self@ }),
    {
        let mut axis = self;
        axis.color = color;
        axis
    }
}

} // verus!
