//! The markers observed through a recording backend.

use point_markers::backend::DrawingBackend;
use point_markers::element::points::{Circle, Cross, Pixel, PointElement, TriangleMarker};
use point_markers::element::{Drawable, PointCollection};
use point_markers::recording::{RecordedCall, RecordingBackend, RecordingError};
use point_markers::style::{RGBColor, ShapeStyle};

fn style() -> ShapeStyle {
    ShapeStyle::new(RGBColor(10, 20, 30))
}

#[test]
fn cross_draws_two_diagonals() {
    let cross = Cross::new((10i32, 10i32), 3, style());
    let mut backend = RecordingBackend::new();
    let points: Vec<(i32, i32)> = vec![(10, 10)];
    let r = cross.draw(&points, &mut backend, (100, 100));
    assert!(r.is_ok());
    assert_eq!(backend.log.len(), 2);
    assert_eq!(
        backend.log[0].call,
        RecordedCall::Line { from: (7, 7), to: (13, 13), color: RGBColor(10, 20, 30) }
    );
    assert!(backend.log[0].ok);
    assert_eq!(
        backend.log[1].call,
        RecordedCall::Line { from: (7, 13), to: (13, 7), color: RGBColor(10, 20, 30) }
    );
    assert!(backend.log[1].ok);
}

#[test]
fn cross_given_zero_points_draws_nothing() {
    let cross = Cross::new((10i32, 10i32), 1000, style());
    let mut backend = RecordingBackend::new();
    let points: Vec<(i32, i32)> = Vec::new();
    let r = cross.draw(&points, &mut backend, (100, 100));
    assert!(r.is_ok());
    assert_eq!(backend.log.len(), 0);
}

#[test]
fn cross_first_failure_stops_the_draw() {
    let cross = Cross::new((10i32, 10i32), 3, style());
    let mut backend = RecordingBackend::failing_at(0);
    let points: Vec<(i32, i32)> = vec![(10, 10)];
    let r = cross.draw(&points, &mut backend, (100, 100));
    assert_eq!(r, Err(RecordingError { index: 0 }));
    assert_eq!(backend.log.len(), 1);
    assert_eq!(
        backend.log[0].call,
        RecordedCall::Line { from: (7, 7), to: (13, 13), color: RGBColor(10, 20, 30) }
    );
    assert!(!backend.log[0].ok);
}

#[test]
fn cross_second_failure_is_returned_after_both_calls() {
    let cross = Cross::new((10i32, 10i32), 3, style());
    let mut backend = RecordingBackend::failing_at(1);
    let points: Vec<(i32, i32)> = vec![(10, 10)];
    let r = cross.draw(&points, &mut backend, (100, 100));
    assert_eq!(r, Err(RecordingError { index: 1 }));
    assert_eq!(backend.log.len(), 2);
    assert!(backend.log[0].ok);
    assert!(!backend.log[1].ok);
}

#[test]
fn cross_uses_only_the_first_point() {
    let cross = Cross::new((0i32, 0i32), 1, style());
    let mut backend = RecordingBackend::new();
    let points: Vec<(i32, i32)> = vec![(0, 0), (50, 50)];
    let r = cross.draw(&points, &mut backend, (100, 100));
    assert!(r.is_ok());
    assert_eq!(backend.log.len(), 2);
    assert_eq!(
        backend.log[0].call,
        RecordedCall::Line { from: (-1, -1), to: (1, 1), color: RGBColor(10, 20, 30) }
    );
}

#[test]
fn cross_at_extreme_coordinates() {
    let cross = Cross::new((0i32, 0i32), 3, style());
    let mut backend = RecordingBackend::new();
    let x = i32::MAX - 3;
    let y = i32::MIN + 3;
    let points: Vec<(i32, i32)> = vec![(x, y)];
    let r = cross.draw(&points, &mut backend, (100, 100));
    assert!(r.is_ok());
    assert_eq!(
        backend.log[0].call,
        RecordedCall::Line {
            from: (x - 3, i32::MIN),
            to: (i32::MAX, y + 3),
            color: RGBColor(10, 20, 30)
        }
    );
}

#[test]
fn triangle_fills_one_polygon() {
    let tri = TriangleMarker::new((0i32, 0i32), 10, style());
    let mut backend = RecordingBackend::new();
    let points: Vec<(i32, i32)> = vec![(0, 0)];
    let r = tri.draw(&points, &mut backend, (100, 100));
    assert!(r.is_ok());
    assert_eq!(backend.log.len(), 1);
    assert_eq!(
        backend.log[0].call,
        RecordedCall::Polygon {
            vertices: vec![(0, -10), (-8, 5), (9, 5)],
            color: RGBColor(10, 20, 30)
        }
    );
    assert!(backend.log[0].ok);
}

#[test]
fn triangle_vertices_match_the_ceiling_formula() {
    // The vertices are ceil(s * cos t) + x, ceil(s * sin t) + y at
    // t in {-90, -210, -330} degrees, where the cosines are 0,
    // -sqrt(3)/2, sqrt(3)/2 and the sines -1, 1/2, 1/2. The two
    // irrational offsets are checked exactly, by squaring: d is
    // ceil(s * sqrt(3) / 2) iff 4d^2 >= 3s^2 > 4(d-1)^2, and the
    // -210 degree offset is -floor(s * sqrt(3) / 2) since
    // ceil(-a) == -floor(a).
    for size in 0u32..200 {
        let (x, y) = (17i64, -29i64);
        let tri = TriangleMarker::new((0i32, 0i32), size, style());
        let mut backend = RecordingBackend::new();
        let points: Vec<(i32, i32)> = vec![(x as i32, y as i32)];
        let r = tri.draw(&points, &mut backend, (100, 100));
        assert!(r.is_ok());
        let vertices = match &backend.log[0].call {
            RecordedCall::Polygon { vertices, color } => {
                assert_eq!(*color, RGBColor(10, 20, 30));
                vertices.clone()
            }
            other => panic!("expected a polygon fill, got {:?}", other),
        };
        assert_eq!(vertices.len(), 3);
        let s = size as i64;
        let three_s2 = 3 * s * s;
        // -90 degrees: (x, y - s).
        assert_eq!((vertices[0].0 as i64, vertices[0].1 as i64), (x, y - s));
        // -210 and -330 degrees share the sine 1/2: y + ceil(s / 2).
        assert_eq!(vertices[1].1 as i64, y + (s + 1) / 2);
        assert_eq!(vertices[2].1 as i64, y + (s + 1) / 2);
        // -330 degrees: x + ceil(s * sqrt(3) / 2).
        let c = vertices[2].0 as i64 - x;
        assert!(c >= 0 && 4 * c * c >= three_s2);
        assert!(c == 0 || 4 * (c - 1) * (c - 1) < three_s2);
        // -210 degrees: x - floor(s * sqrt(3) / 2).
        let f = x - vertices[1].0 as i64;
        assert!(f >= 0 && 4 * f * f <= three_s2);
        assert!(three_s2 < 4 * (f + 1) * (f + 1));
    }
}

#[test]
fn triangle_of_size_zero_collapses_to_the_center() {
    let tri = TriangleMarker::new((0i32, 0i32), 0, style());
    let mut backend = RecordingBackend::new();
    let points: Vec<(i32, i32)> = vec![(5, 7)];
    let r = tri.draw(&points, &mut backend, (100, 100));
    assert!(r.is_ok());
    assert_eq!(
        backend.log[0].call,
        RecordedCall::Polygon {
            vertices: vec![(5, 7), (5, 7), (5, 7)],
            color: RGBColor(10, 20, 30)
        }
    );
}

#[test]
fn triangle_given_zero_points_draws_nothing() {
    let tri = TriangleMarker::new((0i32, 0i32), 10, style());
    let mut backend = RecordingBackend::new();
    let points: Vec<(i32, i32)> = Vec::new();
    let r = tri.draw(&points, &mut backend, (100, 100));
    assert!(r.is_ok());
    assert_eq!(backend.log.len(), 0);
}

#[test]
fn triangle_failure_is_returned() {
    let tri = TriangleMarker::new((0i32, 0i32), 10, style());
    let mut backend = RecordingBackend::failing_at(0);
    let points: Vec<(i32, i32)> = vec![(0, 0)];
    let r = tri.draw(&points, &mut backend, (100, 100));
    assert_eq!(r, Err(RecordingError { index: 0 }));
    assert_eq!(backend.log.len(), 1);
    assert!(!backend.log[0].ok);
}

#[test]
fn point_iter_yields_the_center() {
    let cross = Cross::new((3i32, 4i32), 5, style());
    assert_eq!(*cross.point_iter(), (3, 4));
    let tri = TriangleMarker::new((8i32, 9i32), 5, style());
    assert_eq!(*tri.point_iter(), (8, 9));
}

#[test]
fn make_point_builds_the_same_marker_as_new() {
    let c: Cross<(i32, i32)> = Cross::make_point((1, 2), 7, style());
    assert_eq!(c.center, (1, 2));
    assert_eq!(c.size, 7);
    assert_eq!(c.style, style());

    let t: TriangleMarker<(i32, i32)> = TriangleMarker::make_point((1, 2), 7, style());
    assert_eq!(t.center, (1, 2));
    assert_eq!(t.size, 7);
    assert_eq!(t.style, style());

    let o: Circle<(i32, i32)> = Circle::make_point((1, 2), 7, style());
    assert_eq!(o.center, (1, 2));
    assert_eq!(o.size, 7);
    assert_eq!(o.style, style());
}

#[test]
fn pixel_make_point_ignores_the_size() {
    let small: Pixel<(i32, i32)> = Pixel::make_point((1, 2), 1, style());
    let large: Pixel<(i32, i32)> = Pixel::make_point((1, 2), 100, style());
    assert_eq!(small.pos, large.pos);
    assert_eq!(small.style, large.style);
}

#[test]
fn fits_at_accepts_ordinary_points_and_rejects_overflow() {
    let cross = Cross::new((0i32, 0i32), 3, style());
    assert!(cross.fits_at((10, 10)));
    assert!(cross.fits_at((i32::MAX - 3, i32::MIN + 3)));
    assert!(!cross.fits_at((i32::MAX, 0)));
    let wide = Cross::new((0i32, 0i32), u32::MAX, style());
    assert!(!wide.fits_at((0, 0)));

    let tri = TriangleMarker::new((0i32, 0i32), 10, style());
    assert!(tri.fits_at((0, 0)));
    // size 10: the vertices reach 9 to the right, 8 to the left,
    // 10 down and 5 up.
    assert!(tri.fits_at((i32::MAX - 9, i32::MAX - 5)));
    assert!(!tri.fits_at((i32::MAX - 8, 0)));
    assert!(!tri.fits_at((0, i32::MIN + 9)));
    let huge = TriangleMarker::new((0i32, 0i32), u32::MAX, style());
    assert!(!huge.fits_at((0, 0)));
}

#[test]
fn recording_backend_records_in_order() {
    let mut backend = RecordingBackend::new();
    assert!(backend.draw_line((0, 0), (1, 1), RGBColor(1, 1, 1)).is_ok());
    let poly: Vec<(i32, i32)> = vec![(0, 0), (2, 0), (0, 2)];
    assert!(backend.fill_polygon(&poly, RGBColor(2, 2, 2)).is_ok());
    assert_eq!(backend.log.len(), 2);
    assert_eq!(
        backend.log[0].call,
        RecordedCall::Line { from: (0, 0), to: (1, 1), color: RGBColor(1, 1, 1) }
    );
    assert_eq!(
        backend.log[1].call,
        RecordedCall::Polygon { vertices: poly, color: RGBColor(2, 2, 2) }
    );
}

#[test]
fn recording_backend_fails_only_the_chosen_call() {
    let mut backend = RecordingBackend::failing_at(1);
    assert!(backend.draw_line((0, 0), (1, 1), RGBColor(1, 1, 1)).is_ok());
    assert_eq!(
        backend.draw_line((2, 2), (3, 3), RGBColor(1, 1, 1)),
        Err(RecordingError { index: 1 })
    );
    assert!(backend.draw_line((4, 4), (5, 5), RGBColor(1, 1, 1)).is_ok());
}
