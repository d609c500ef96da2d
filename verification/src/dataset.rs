//! A series of samples.

use crate::style::Color;
use vstd::prelude::*;

verus! {

/// A series of `(x, y)` samples and the color of its markers.
///
/// Samples are kept as they are given: one that lies outside the bounds of
/// an axis is passed over when the chart is drawn, so the bounds may be set
/// after the samples.
#[derive(Debug)]
pub struct Dataset {
    pub data: Vec<(i64, i64)>,
    pub color: Color,
}

/// What a dataset holds, as plain mathematical values.
pub struct DatasetView {
    pub data: Seq<(int, int)>,
    pub color: Color,
}

/// The samples as pairs of mathematical integers.
pub open spec fn samples(data: Seq<(i64, i64)>) -> Seq<(int, int)> {
    Seq::new(data.len(), |i: int| (data[i].0 as int, data[i].1 as int))
}

impl View for Dataset {
    type V = DatasetView;

    open spec fn view(&self) -> DatasetView {
        DatasetView { data: samples(self.data@), color: self.color }
    }
}

impl Default for Dataset {
    fn default() -> (dataset: Dataset)
        ensures
            dataset@ == (DatasetView { data: Seq::empty(), color: Color::Reset }),
    {
        let dataset = Dataset { data: Vec::new(), color: Color::Reset };
        assert(dataset@.data =~= Seq::empty());
        dataset
    }
}

impl Dataset {
    /// Sets the samples.
    pub fn data(self, data: &[(i64, i64)]) -> (dataset: Dataset)
        ensures
            dataset@ == (DatasetView { data: samples(data@), ..self@ }),
    {
        let mut owned: Vec<(i64, i64)> = Vec::new();
        let mut i: usize = 0;
        while i < data.len()
            invariant
                i <= data.len(),
                owned.len() == i,
                forall|k: int| 0 <= k < i ==> owned[k] == data@[k],
            decreases data.len() - i,
        {
            owned.push(data[i]);
            i += 1;
        }
        assert(samples(owned@) =~= samples(data@));
        let mut dataset = self;
        dataset.data = owned;
        dataset
    }

    /// Sets the color of the markers.
    pub fn color(self, color: Color) -> (dataset: Dataset)
        ensures
            dataset@ == (DatasetView { color, ..self@ }),
    {
        let mut dataset = self;
        dataset.color = color;
        dataset
    }
}

} // verus!
