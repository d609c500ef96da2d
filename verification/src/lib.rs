//! Line charts for character-cell displays.
//!
//! A [`chart::Chart`] takes two axes and a list of datasets, splits a
//! rectangle of cells into label, axis, legend and plot regions
//! ([`layout`]), and paints the decorations and the data points into a
//! [`buffer::Buffer`].
//!
//! Every function of the crate carries a contract that Verus proves.
//! Sample values are integers: a caller that measures in fractions picks a
//! unit small enough and passes whole multiples of it.

pub mod geometry;
pub mod style;
pub mod symbols;
pub mod text;
pub mod axis;
pub mod dataset;
pub mod layout;
pub mod buffer;
pub mod scale;
pub mod block;
pub mod render;
pub mod chart;
