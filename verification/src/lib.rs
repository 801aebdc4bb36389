//! Nucleus of a boundary-representation (B-Rep) geometric modeler.
//!
//! The crate has two layers.  `geom` holds the parametric-geometry library:
//! points, vectors, parametrized curves, and the bounded-line closest-approach
//! intersection test.  `data` holds the topology model: a `Model` mints
//! monotonically increasing identifiers and turns vertices into chord edges,
//! edges into chains, and closed chains into faces.  `err` is the closed set of
//! geometric-construction failures, and `render` is the decimal formatting that
//! the diagnostic text of the entities is built from.

pub mod data;
pub mod err;
pub mod geom;
pub mod render;
