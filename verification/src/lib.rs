//! Builds Flot chart pages: series, axes, legend, grid and markings are
//! collected in JSON configuration trees and emitted as one static HTML
//! document that loads the Flot JavaScript library.
//!
//! A [`Page`] owns its [`Plot`]s and a plot owns its [`Series`]; both are kept
//! in arenas, so items are only ever appended and keep their place. The
//! contracts in this crate are stated over the views of these types: a
//! [`Tree`] for every JSON value and plain sequences for what an arena holds.

pub mod arena;
pub mod axis;
pub mod grid;
pub mod laws;
pub mod legend;
pub mod markings;
pub mod number;
pub mod page;
pub mod plot;
pub mod series;
pub mod text;
pub mod tree;
pub mod value;

pub use axis::{Axis, Side};
pub use grid::Grid;
pub use legend::{Corner, Legend};
pub use markings::Markings;
pub use number::Decimal;
pub use page::{script, Page, PageView};
pub use plot::{Plot, PlotView};
pub use series::{BuildError, Operation, PlotKind, Series, SeriesView};
pub use tree::Tree;
