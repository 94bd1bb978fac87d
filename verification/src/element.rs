//! The element contract layer.
//!
//! A chart-composition layer treats every element uniformly: it reads
//! the element's logical points through `PointCollection`, projects them
//! to device pixels itself, and hands the projected points back through
//! `Drawable::draw`. The draw contract is stated over the backend's
//! ghost call log: which calls are issued, in which order, and that the
//! first backend failure ends the invocation at once.

pub mod points;

use crate::backend::{issues, BackendCall, BackendCoord, DrawingBackend};
use vstd::prelude::*;

verus! {

/// An element that can render itself once its logical points have been
/// projected to device coordinates.
pub trait Drawable<DB: DrawingBackend> {
    /// Whether every device coordinate the element's geometry derives
    /// from `points` fits the device's integer range.
    spec fn fits(&self, points: Seq<BackendCoord>) -> bool;

    /// The backend calls one `draw` on `points` is to issue, in order.
    spec fn render(&self, points: Seq<BackendCoord>) -> Seq<BackendCall>;

    /// Issue the element's backend calls for the given projected device
    /// points, in the element's own color. An empty `points` means the
    /// caller clipped the element away: nothing is issued and the draw
    /// succeeds. The first backend failure is returned at once,
    /// unmodified, and nothing further is issued. `parent_dim` is the
    /// parent's dimensions, accepted for contract uniformity; point
    /// markers do not read it.
    fn draw(&self, points: &Vec<BackendCoord>, backend: &mut DB, parent_dim: (u32, u32)) -> (r:
        Result<(), DB::ErrorType>)
        requires
            self.fits(points@),
        ensures
            issues(old(backend).calls(), final(backend).calls(), self.render(points@), r is Ok),
    ;
}

/// The logical coordinates an element owns, independent of how they get
/// drawn; a generic projection step upstream reads them through this.
pub trait PointCollection<Coord> {
    /// The logical points of the element, in drawing order.
    spec fn points(&self) -> Seq<Coord>;

    /// Borrow the element's logical point: a point marker owns exactly
    /// one, its center.
    fn point_iter(&self) -> (r: &Coord)
        ensures
            self.points().len() == 1,
            *r == self.points()[0],
    ;
}

} // verus!
