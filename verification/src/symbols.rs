//! The glyphs that a chart is drawn with.

use vstd::prelude::*;

verus! {

/// What an untouched cell shows.
pub const BLANK: char = ' ';

/// A data point.
pub const BLACK_CIRCLE: char = '\u{25cf}';

/// A piece of a horizontal line.
pub const HORIZONTAL: char = '\u{2500}';

/// A piece of a vertical line.
pub const VERTICAL: char = '\u{2502}';

/// The corner that joins a line going up with one going right.
pub const BOTTOM_LEFT: char = '\u{2514}';

/// The corner that joins a line going down with one going right.
pub const TOP_LEFT: char = '\u{250c}';

/// The corner that joins a line going down with one going left.
pub const TOP_RIGHT: char = '\u{2510}';

/// The corner that joins a line going up with one going left.
pub const BOTTOM_RIGHT: char = '\u{2518}';

} // verus!
