//! The point markers: cross, triangle, circle and pixel.
//!
//! Each marker owns one logical coordinate (its center), a non-negative
//! integer size and a copy of its style, and is immutable after
//! construction. A cross draws the two diagonals of its bounding square;
//! a triangle fills the polygon whose corners sit at -90, -210 and -330
//! degrees on the circle of radius `size`, each coordinate rounded with
//! the ceiling. The ceiling rounding is observable in the output and is
//! kept exactly.

use crate::backend::{
    issues, lemma_issues_one, lemma_issues_two, lemma_issues_two_stop, lemma_issues_zero,
    lemma_success_issues_all, BackendCall, BackendCoord, DrawingBackend, LogEntry,
};
use crate::element::{Drawable, PointCollection};
use crate::math::{
    half_ceil, lemma_sqrt3_half_le, sqrt3_half_bounds, sqrt3_half_ceil, sqrt3_half_floor,
};
use crate::style::{RGBColor, ShapeStyle};
use vstd::prelude::*;

verus! {

/// The element that used to describe a point: uniform construction of
/// any marker variant from a position, a size and a style.
pub trait PointElement<Coord>: Sized {
    /// The marker that `make_point` builds.
    spec fn make_point_spec(pos: Coord, size: u32, style: ShapeStyle) -> Self;

    /// Build this marker variant at `pos` with the given size and style.
    /// A variant for which the size carries no meaning accepts and
    /// ignores it.
    fn make_point(pos: Coord, size: u32, style: ShapeStyle) -> (r: Self)
        ensures
            r == Self::make_point_spec(pos, size, style),
    ;
}

/// Describe a cross.
pub struct Cross<Coord> {
    pub center: Coord,
    pub size: u32,
    pub style: ShapeStyle,
}

impl<Coord> Cross<Coord> {
    /// A cross marker centered at `coord`, its bounding square reaching
    /// `size` pixels out from the center.
    pub fn new(coord: Coord, size: u32, style: ShapeStyle) -> (r: Self)
        ensures
            r.center == coord,
            r.size == size,
            r.style == style,
    {
        Cross { center: coord, size, style }
    }
}

/// Whether a cross of half-width `s` at the device point `p` stays
/// within the device's integer coordinate range.
pub open spec fn cross_fits_at(s: int, p: BackendCoord) -> bool {
    &&& i32::MIN <= p.0 - s
    &&& p.0 + s <= i32::MAX
    &&& i32::MIN <= p.1 - s
    &&& p.1 + s <= i32::MAX
}

/// The two diagonal strokes of a cross of half-width `s` centered at the
/// device point `(x, y)`, in drawing order: first the falling diagonal
/// `(x-s, y-s) -> (x+s, y+s)`, then the rising one
/// `(x-s, y+s) -> (x+s, y-s)`.
pub open spec fn cross_plan(x: int, y: int, s: int, color: RGBColor) -> Seq<BackendCall> {
    seq![
        BackendCall::Line { from: (x - s, y - s), to: (x + s, y + s), color },
        BackendCall::Line { from: (x - s, y + s), to: (x + s, y - s), color },
    ]
}

impl<Coord> PointCollection<Coord> for Cross<Coord> {
    open spec fn points(&self) -> Seq<Coord> {
        seq![self.center]
    }

    fn point_iter(&self) -> (r: &Coord) {
        &self.center
    }
}

impl<Coord, DB: DrawingBackend> Drawable<DB> for Cross<Coord> {
    open spec fn fits(&self, points: Seq<BackendCoord>) -> bool {
        points.len() > 0 ==> cross_fits_at(self.size as int, points[0])
    }

    open spec fn render(&self, points: Seq<BackendCoord>) -> Seq<BackendCall> {
        if points.len() == 0 {
            Seq::empty()
        } else {
            cross_plan(points[0].0 as int, points[0].1 as int, self.size as int, self.style.color)
        }
    }

    fn draw(&self, points: &Vec<BackendCoord>, backend: &mut DB, _parent_dim: (u32, u32)) -> (r:
        Result<(), DB::ErrorType>) {
        if points.len() == 0 {
            proof {
                lemma_issues_zero(old(backend).calls());
            }
            return Ok(());
        }
        let p: BackendCoord = points[0];
        let x: i32 = p.0;
        let y: i32 = p.1;
        let size: i32 = self.size as i32;
        let x0: i32 = x - size;
        let y0: i32 = y - size;
        let x1: i32 = x + size;
        let y1: i32 = y + size;
        let color: RGBColor = self.style.color;
        let ghost c1 = BackendCall::Line {
            from: (x0 as int, y0 as int),
            to: (x1 as int, y1 as int),
            color,
        };
        let ghost c2 = BackendCall::Line {
            from: (x0 as int, y1 as int),
            to: (x1 as int, y0 as int),
            color,
        };
        proof {
            assert(<Cross<Coord> as Drawable<DB>>::render(self, points@) =~= seq![c1, c2]);
        }
        match backend.draw_line((x0, y0), (x1, y1), color) {
            Err(e) => {
                proof {
                    lemma_issues_two_stop(old(backend).calls(), c1, c2);
                }
                return Err(e);
            },
            Ok(_) => {},
        }
        let r2 = backend.draw_line((x0, y1), (x1, y0), color);
        proof {
            lemma_issues_two(old(backend).calls(), c1, c2, r2 is Ok);
        }
        r2
    }
}

impl<Coord> Cross<Coord> {
    /// Whether `draw` may be given the single projected point `p`: the
    /// corners of the bounding square stay within the device range.
    pub fn fits_at(&self, p: BackendCoord) -> (b: bool)
        ensures
            b == cross_fits_at(self.size as int, p),
    {
        let s: i64 = self.size as i64;
        let x: i64 = p.0 as i64;
        let y: i64 = p.1 as i64;
        let min: i64 = i32::MIN as i64;
        let max: i64 = i32::MAX as i64;
        min <= x - s && x + s <= max && min <= y - s && y + s <= max
    }
}

impl<Coord> PointElement<Coord> for Cross<Coord> {
    open spec fn make_point_spec(pos: Coord, size: u32, style: ShapeStyle) -> Self {
        Cross { center: pos, size, style }
    }

    fn make_point(pos: Coord, size: u32, style: ShapeStyle) -> (r: Self) {
        Self::new(pos, size, style)
    }
}

/// Describe a triangle marker.
pub struct TriangleMarker<Coord> {
    pub center: Coord,
    pub size: u32,
    pub style: ShapeStyle,
}

impl<Coord> TriangleMarker<Coord> {
    /// A triangle marker centered at `coord`, `size` being the
    /// circumradius of its vertices, in device pixels.
    pub fn new(coord: Coord, size: u32, style: ShapeStyle) -> (r: Self)
        ensures
            r.center == coord,
            r.size == size,
            r.style == style,
    {
        TriangleMarker { center: coord, size, style }
    }
}

/// The vertices of a triangle marker of circumradius `s` centered at the
/// device point `(x, y)`, in drawing order: the corners at -90, -210 and
/// -330 degrees, each offset `s * cos` and `s * sin` rounded with the
/// ceiling. At those angles the cosines are `0`, `-sqrt(3)/2` and
/// `sqrt(3)/2` and the sines `-1`, `1/2` and `1/2`, so the exact values
/// are the ones below: `ceil(-a) == -floor(a)` turns the one negative
/// irrational offset into a floor.
pub open spec fn triangle_vertices(x: int, y: int, s: nat) -> Seq<(int, int)> {
    seq![
        (x, y - s),
        (x - sqrt3_half_floor(s), y + half_ceil(s)),
        (x + sqrt3_half_ceil(s), y + half_ceil(s)),
    ]
}

/// Whether a triangle marker of circumradius `s` at the device point
/// `p` keeps all three vertices within the device's integer range.
pub open spec fn triangle_fits_at(s: nat, p: BackendCoord) -> bool {
    &&& i32::MIN <= p.1 - s
    &&& i32::MIN <= p.0 - sqrt3_half_floor(s)
    &&& p.0 + sqrt3_half_ceil(s) <= i32::MAX
    &&& p.1 + half_ceil(s) <= i32::MAX
}

/// The single polygon-fill call a triangle marker issues.
pub open spec fn triangle_plan(x: int, y: int, s: nat, color: RGBColor) -> Seq<BackendCall> {
    seq![BackendCall::Polygon { vertices: triangle_vertices(x, y, s), color }]
}

impl<Coord> PointCollection<Coord> for TriangleMarker<Coord> {
    open spec fn points(&self) -> Seq<Coord> {
        seq![self.center]
    }

    fn point_iter(&self) -> (r: &Coord) {
        &self.center
    }
}

impl<Coord, DB: DrawingBackend> Drawable<DB> for TriangleMarker<Coord> {
    open spec fn fits(&self, points: Seq<BackendCoord>) -> bool {
        points.len() > 0 ==> triangle_fits_at(self.size as nat, points[0])
    }

    open spec fn render(&self, points: Seq<BackendCoord>) -> Seq<BackendCall> {
        if points.len() == 0 {
            Seq::empty()
        } else {
            triangle_plan(
                points[0].0 as int,
                points[0].1 as int,
                self.size as nat,
                self.style.color,
            )
        }
    }

    fn draw(&self, points: &Vec<BackendCoord>, backend: &mut DB, _parent_dim: (u32, u32)) -> (r:
        Result<(), DB::ErrorType>) {
        if points.len() == 0 {
            proof {
                lemma_issues_zero(old(backend).calls());
            }
            return Ok(());
        }
        let p: BackendCoord = points[0];
        let x: i32 = p.0;
        let y: i32 = p.1;
        proof {
            lemma_sqrt3_half_le(self.size as nat);
        }
        let fc: (u64, u64) = sqrt3_half_bounds(self.size);
        let fl: u64 = fc.0;
        let cl: u64 = fc.1;
        let h: u64 = (self.size as u64 + 1) / 2;
        let v0y: i64 = y as i64 - self.size as i64;
        let v1x: i64 = x as i64 - fl as i64;
        let v2x: i64 = x as i64 + cl as i64;
        let vy: i64 = y as i64 + h as i64;
        let vertices: Vec<BackendCoord> = vec![
            (x, v0y as i32),
            (v1x as i32, vy as i32),
            (v2x as i32, vy as i32),
        ];
        let color: RGBColor = self.style.color;
        let ghost call = BackendCall::Polygon {
            vertices: crate::backend::coords_as_ints(vertices@),
            color,
        };
        proof {
            assert(crate::backend::coords_as_ints(vertices@) =~= triangle_vertices(
                x as int,
                y as int,
                self.size as nat,
            ));
            assert(<TriangleMarker<Coord> as Drawable<DB>>::render(self, points@) =~= seq![call]);
        }
        let r = backend.fill_polygon(&vertices, color);
        proof {
            lemma_issues_one(old(backend).calls(), call, r is Ok);
        }
        r
    }
}

impl<Coord> TriangleMarker<Coord> {
    /// Whether `draw` may be given the single projected point `p`: all
    /// three vertices stay within the device range.
    pub fn fits_at(&self, p: BackendCoord) -> (b: bool)
        ensures
            b == triangle_fits_at(self.size as nat, p),
    {
        proof {
            lemma_sqrt3_half_le(self.size as nat);
        }
        let fc: (u64, u64) = sqrt3_half_bounds(self.size);
        let x: i64 = p.0 as i64;
        let y: i64 = p.1 as i64;
        let s: i64 = self.size as i64;
        let h: i64 = ((self.size as u64 + 1) / 2) as i64;
        let min: i64 = i32::MIN as i64;
        let max: i64 = i32::MAX as i64;
        min <= y - s && min <= x - fc.0 as i64 && x + fc.1 as i64 <= max && y + h <= max
    }
}

impl<Coord> PointElement<Coord> for TriangleMarker<Coord> {
    open spec fn make_point_spec(pos: Coord, size: u32, style: ShapeStyle) -> Self {
        TriangleMarker { center: pos, size, style }
    }

    fn make_point(pos: Coord, size: u32, style: ShapeStyle) -> (r: Self) {
        Self::new(pos, size, style)
    }
}

/// Describe a circle: a marker peer of the cross and the triangle, built
/// through the same factory contract. Its size is its radius.
pub struct Circle<Coord> {
    pub center: Coord,
    pub size: u32,
    pub style: ShapeStyle,
}

impl<Coord> Circle<Coord> {
    /// A circle marker of radius `size` centered at `coord`.
    pub fn new(coord: Coord, size: u32, style: ShapeStyle) -> (r: Self)
        ensures
            r.center == coord,
            r.size == size,
            r.style == style,
    {
        Circle { center: coord, size, style }
    }
}

impl<Coord> PointElement<Coord> for Circle<Coord> {
    open spec fn make_point_spec(pos: Coord, size: u32, style: ShapeStyle) -> Self {
        Circle { center: pos, size, style }
    }

    fn make_point(pos: Coord, size: u32, style: ShapeStyle) -> (r: Self) {
        Self::new(pos, size, style)
    }
}

/// Describe a single pixel: the marker variant for which a size carries
/// no meaning.
pub struct Pixel<Coord> {
    pub pos: Coord,
    pub style: ShapeStyle,
}

impl<Coord> Pixel<Coord> {
    /// A pixel marker at `pos`.
    pub fn new(pos: Coord, style: ShapeStyle) -> (r: Self)
        ensures
            r.pos == pos,
            r.style == style,
    {
        Pixel { pos, style }
    }
}

impl<Coord> PointElement<Coord> for Pixel<Coord> {
    open spec fn make_point_spec(pos: Coord, size: u32, style: ShapeStyle) -> Self {
        Pixel { pos, style }
    }

    fn make_point(pos: Coord, _size: u32, style: ShapeStyle) -> (r: Self) {
        Self::new(pos, style)
    }
}

/// Law: a cross given one point issues exactly two line calls, the two
/// diagonals of its bounding square, in that order. The hypothesis is
/// the draw contract of `Cross` instantiated with one point and a
/// successful result.
pub proof fn lemma_cross_draws_both_diagonals(
    pre: Seq<LogEntry>,
    post: Seq<LogEntry>,
    x: int,
    y: int,
    s: int,
    color: RGBColor,
)
    requires
        issues(pre, post, cross_plan(x, y, s, color), true),
    ensures
        post.len() == pre.len() + 2,
        post[pre.len() as int].call == (BackendCall::Line {
            from: (x - s, y - s),
            to: (x + s, y + s),
            color,
        }),
        post[pre.len() as int + 1].call == (BackendCall::Line {
            from: (x - s, y + s),
            to: (x + s, y - s),
            color,
        }),
        post[pre.len() as int].ok && post[pre.len() as int + 1].ok,
{
    lemma_success_issues_all(pre, post, cross_plan(x, y, s, color));
}

/// Law: a triangle marker given one point issues exactly one
/// polygon-fill call, with exactly the three vertices of
/// `triangle_vertices`. The hypothesis is the draw contract of
/// `TriangleMarker` instantiated with one point and a successful result.
pub proof fn lemma_triangle_fills_one_polygon(
    pre: Seq<LogEntry>,
    post: Seq<LogEntry>,
    x: int,
    y: int,
    s: nat,
    color: RGBColor,
)
    requires
        issues(pre, post, triangle_plan(x, y, s, color), true),
    ensures
        post.len() == pre.len() + 1,
        post[pre.len() as int].call == (BackendCall::Polygon {
            vertices: triangle_vertices(x, y, s),
            color,
        }),
        triangle_vertices(x, y, s).len() == 3,
        post[pre.len() as int].ok,
{
    lemma_success_issues_all(pre, post, triangle_plan(x, y, s, color));
}

/// Law: the pixel marker is size-insensitive. `make_point` builds the
/// same marker whatever size it is given, so two pixels made at one
/// position with one style render identically however they are drawn.
pub proof fn lemma_pixel_size_insensitive<Coord>(pos: Coord, s1: u32, s2: u32, style: ShapeStyle)
    ensures
        <Pixel<Coord> as PointElement<Coord>>::make_point_spec(pos, s1, style) == <Pixel<
            Coord,
        > as PointElement<Coord>>::make_point_spec(pos, s2, style),
{
}

} // verus!
