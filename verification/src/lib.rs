//! Point markers for a chart-composition layer.
//!
//! A marker (cross, triangle, circle, pixel) owns one logical coordinate,
//! an integer size and a style. Once the coordinate has been projected to
//! a device pixel by the caller, the marker renders itself through a
//! pluggable drawing backend that offers two primitives: draw a line
//! segment and fill a polygon. The contracts state, over a ghost log of
//! backend calls, exactly which primitives each marker issues, in which
//! order, and how a backend failure cuts the sequence short.

pub mod backend;
pub mod element;
pub mod math;
pub mod recording;
pub mod style;
