//! End-to-end tests of the shape-to-mesh pipeline against the real engine.

use shape_mesh::coord::Coord;
use shape_mesh::coord::Vec2;
use shape_mesh::engine::ResolveError;
use shape_mesh::engine::Tessellator;
use shape_mesh::geometry::Geometry;
use shape_mesh::mode::CapStyle;
use shape_mesh::mode::FillConfig;
use shape_mesh::mode::JoinStyle;
use shape_mesh::mode::StrokeConfig;
use shape_mesh::mode::TessellationMode;
use shape_mesh::shapes::CircleShape;
use shape_mesh::shapes::EllipseShape;
use shape_mesh::shapes::PolygonShape;
use shape_mesh::shapes::RectangleOrigin;
use shape_mesh::shapes::RectangleShape;
use shape_mesh::shapes::Shape;
use shape_mesh::shapes::resolve;

fn positions(g: &Geometry) -> Vec<(f32, f32, f32)> {
    g.vertices
        .iter()
        .map(|v| (
            f32::from_bits(v.x_bits),
            f32::from_bits(v.y_bits),
            f32::from_bits(v.z_bits),
        ))
        .collect()
}

fn fill_default() -> TessellationMode {
    TessellationMode::Fill(FillConfig::default())
}

fn stroke_with_width(num: i64, den: i64) -> TessellationMode {
    TessellationMode::Stroke(StrokeConfig::default().with_line_width(Coord::new(num, den)))
}

fn point(x: i64, y: i64) -> Vec2 {
    Vec2::new(Coord::from_int(x), Coord::from_int(y))
}

fn rect(width: Coord, height: Coord, origin: RectangleOrigin) -> RectangleShape {
    RectangleShape { width, height, origin }
}

fn assert_triangle_list(g: &Geometry) {
    assert_eq!(g.indices.len() % 3, 0);
    for &i in &g.indices {
        assert!((i as usize) < g.vertices.len());
    }
}

fn bounding_box(g: &Geometry) -> (f32, f32, f32, f32) {
    let ps = positions(g);
    assert!(!ps.is_empty());
    let mut min_x = f32::INFINITY;
    let mut min_y = f32::INFINITY;
    let mut max_x = f32::NEG_INFINITY;
    let mut max_y = f32::NEG_INFINITY;
    for (x, y, _) in ps {
        min_x = min_x.min(x);
        min_y = min_y.min(y);
        max_x = max_x.max(x);
        max_y = max_y.max(y);
    }
    (min_x, min_y, max_x, max_y)
}

#[test]
fn absorbed_ellipse_fill_is_ok_and_empty() {
    // Positive radii so small that, next to a large center, every flattened
    // point collapses onto the center in binary32: the engine accepts the
    // path and returns an empty mesh. Degenerate-but-valid input must not
    // error — and this is why no contract promises a non-empty mesh for
    // positive radii alone.
    let tiny = Coord::new(1, 1_i64 << 30);
    let shape = Shape::Ellipse(EllipseShape {
        radii: Vec2::new(tiny, tiny),
        center: Vec2::new(Coord::new(1_i64 << 30, 1), Coord::zero()),
    });
    let mut tess = Tessellator::new();
    let g = resolve(&shape, &fill_default(), &mut tess).unwrap();
    assert!(g.vertices.is_empty());
    assert!(g.indices.is_empty());
}

#[test]
fn rect_center_fill_corners() {
    let shape = Shape::Rectangle(rect(Coord::from_int(2), Coord::from_int(1), RectangleOrigin::Center));
    let mut tess = Tessellator::new();
    let g = resolve(&shape, &fill_default(), &mut tess).unwrap();
    assert_eq!(g.vertices.len(), 4);
    assert_eq!(g.indices, vec![0, 1, 2, 0, 2, 3]);
    for &i in &g.indices {
        assert!((i as usize) < g.vertices.len());
    }
    let mut ps = positions(&g);
    for &(_, _, z) in &ps {
        assert_eq!(z, 0.0);
    }
    ps.sort_by(|a, b| a.partial_cmp(b).unwrap());
    let mut expected = vec![
        (-1.0f32, -0.5f32, 0.0f32),
        (1.0, -0.5, 0.0),
        (1.0, 0.5, 0.0),
        (-1.0, 0.5, 0.0),
    ];
    expected.sort_by(|a, b| a.partial_cmp(b).unwrap());
    assert_eq!(ps, expected);
}

#[test]
fn rect_origin_boxes() {
    let w = Coord::from_int(3);
    let h = Coord::from_int(2);
    let cases = vec![
        (RectangleOrigin::Center, (-1.5f32, -1.0f32, 1.5f32, 1.0f32)),
        (RectangleOrigin::BottomLeft, (0.0, 0.0, 3.0, 2.0)),
        (RectangleOrigin::BottomRight, (-3.0, 0.0, 0.0, 2.0)),
        (RectangleOrigin::TopRight, (-3.0, -2.0, 0.0, 0.0)),
        (RectangleOrigin::TopLeft, (0.0, -2.0, 3.0, 0.0)),
    ];
    let mut tess = Tessellator::new();
    for (origin, expected) in cases {
        let shape = Shape::Rectangle(rect(w, h, origin));
        let g = resolve(&shape, &fill_default(), &mut tess).unwrap();
        assert_eq!(bounding_box(&g), expected);
    }
}

#[test]
fn circle_stroke_annulus() {
    let shape = Shape::Circle(CircleShape { radius: Coord::from_int(1), center: Vec2::zero() });
    let mode = TessellationMode::Stroke(StrokeConfig {
        tolerance: Coord::new(1, 1000),
        line_width: Coord::new(1, 10),
        ..StrokeConfig::default()
    });
    let mut tess = Tessellator::new();
    let g = resolve(&shape, &mode, &mut tess).unwrap();
    assert!(!g.vertices.is_empty());
    // The engine places join vertices on the offset polyline, which may sag
    // inside the exact annulus by up to the flattening tolerance.
    let slack = 0.0015f64;
    for (x, y, z) in positions(&g) {
        assert_eq!(z, 0.0);
        let d = ((x as f64) * (x as f64) + (y as f64) * (y as f64)).sqrt();
        assert!(d >= 0.95 - slack && d <= 1.05 + slack, "vertex at distance {d}");
    }
}

#[test]
fn circle_stroke_vertex_count_scales_with_tolerance() {
    let shape = Shape::Circle(CircleShape { radius: Coord::from_int(1), center: Vec2::zero() });
    let coarse = TessellationMode::Stroke(StrokeConfig::default());
    let fine = TessellationMode::Stroke(StrokeConfig {
        tolerance: Coord::new(1, 1000),
        ..StrokeConfig::default()
    });
    let mut tess = Tessellator::new();
    let g_coarse = resolve(&shape, &coarse, &mut tess).unwrap();
    let g_fine = resolve(&shape, &fine, &mut tess).unwrap();
    assert!(g_fine.vertices.len() > g_coarse.vertices.len());
}

#[test]
fn resolve_twice_same_mesh() {
    let shape = Shape::Circle(CircleShape {
        radius: Coord::new(3, 2),
        center: Vec2::new(Coord::new(1, 2), Coord::new(-1, 4)),
    });
    let mode = fill_default();
    let mut t1 = Tessellator::new();
    let mut t2 = Tessellator::new();
    let g1 = resolve(&shape, &mode, &mut t1).unwrap();
    let g2 = resolve(&shape, &mode, &mut t2).unwrap();
    assert_eq!(positions(&g1), positions(&g2));
    assert_eq!(g1.indices, g2.indices);
}

#[test]
fn empty_polygon_yields_empty_mesh() {
    let mut tess = Tessellator::new();
    for mode in [fill_default(), stroke_with_width(1, 10)] {
        let shape = Shape::Polygon(PolygonShape { points: Vec::new(), closed: true });
        let g = resolve(&shape, &mode, &mut tess).unwrap();
        assert!(g.vertices.is_empty());
        assert!(g.indices.is_empty());
    }
}

#[test]
fn zero_radius_circle_fill_is_empty() {
    let shape = Shape::Circle(CircleShape { radius: Coord::zero(), center: Vec2::zero() });
    let mut tess = Tessellator::new();
    let g = resolve(&shape, &fill_default(), &mut tess).unwrap();
    assert!(g.vertices.is_empty());
    assert!(g.indices.is_empty());
}

#[test]
fn missing_engine_slot_is_an_error() {
    let mut fill_only = Tessellator::new_fill_only();
    let mut stroke_only = Tessellator::new_stroke_only();
    let shapes = || {
        vec![
            Shape::Rectangle(RectangleShape::default()),
            Shape::Circle(CircleShape::default()),
            Shape::Ellipse(EllipseShape::default()),
            Shape::Polygon(PolygonShape { points: vec![point(0, 0), point(1, 0), point(0, 1)], closed: true }),
        ]
    };
    for shape in shapes() {
        let r = resolve(&shape, &stroke_with_width(1, 10), &mut fill_only);
        assert_eq!(r.unwrap_err(), ResolveError::MissingEngine);
    }
    for shape in shapes() {
        let r = resolve(&shape, &fill_default(), &mut stroke_only);
        assert_eq!(r.unwrap_err(), ResolveError::MissingEngine);
    }
}

#[test]
fn fill_mode_never_needs_the_stroke_slot() {
    let mut fill_only = Tessellator::new_fill_only();
    let shape = Shape::Circle(CircleShape::default());
    assert!(resolve(&shape, &fill_default(), &mut fill_only).is_ok());
    let mut stroke_only = Tessellator::new_stroke_only();
    assert!(resolve(&shape, &stroke_with_width(1, 10), &mut stroke_only).is_ok());
}

#[test]
fn nondegenerate_shapes_give_nonempty_meshes() {
    let triangle = || PolygonShape {
        points: vec![point(0, 0), point(2, 0), point(1, 2)],
        closed: true,
    };
    let shapes = || {
        vec![
            Shape::Rectangle(rect(Coord::from_int(2), Coord::from_int(1), RectangleOrigin::BottomLeft)),
            Shape::Circle(CircleShape { radius: Coord::from_int(1), center: Vec2::zero() }),
            Shape::Ellipse(EllipseShape {
                radii: Vec2::new(Coord::from_int(2), Coord::from_int(1)),
                center: Vec2::zero(),
            }),
            Shape::Polygon(triangle()),
        ]
    };
    let mut tess = Tessellator::new();
    for shape in shapes() {
        let g = resolve(&shape, &fill_default(), &mut tess).unwrap();
        assert!(!g.vertices.is_empty(), "empty fill mesh for {shape:?}");
        assert!(!g.indices.is_empty(), "no fill triangles for {shape:?}");
        assert_triangle_list(&g);
    }
    for shape in shapes() {
        let g = resolve(&shape, &stroke_with_width(1, 10), &mut tess).unwrap();
        assert!(!g.vertices.is_empty(), "empty stroke mesh for {shape:?}");
        assert!(!g.indices.is_empty(), "no stroke triangles for {shape:?}");
        assert_triangle_list(&g);
    }
}

#[test]
fn ellipse_fill_stays_inside_its_box() {
    let shape = Shape::Ellipse(EllipseShape {
        radii: Vec2::new(Coord::from_int(2), Coord::from_int(1)),
        center: Vec2::new(Coord::from_int(5), Coord::from_int(-3)),
    });
    let mut tess = Tessellator::new();
    let g = resolve(&shape, &fill_default(), &mut tess).unwrap();
    for (x, y, _) in positions(&g) {
        assert!((3.0..=7.0).contains(&x));
        assert!((-4.0..=-2.0).contains(&y));
    }
}

#[test]
fn default_shapes_match_documented_values() {
    let r = RectangleShape::default();
    assert_eq!(r.width, Coord::from_int(1));
    assert_eq!(r.height, Coord::from_int(1));
    assert_eq!(r.origin, RectangleOrigin::Center);
    let c = CircleShape::default();
    assert_eq!(c.radius, Coord::from_int(1));
    assert_eq!(c.center, Vec2::zero());
    let e = EllipseShape::default();
    assert_eq!(e.radii, Vec2::one());
    assert_eq!(e.center, Vec2::zero());
    let p = PolygonShape::default();
    assert!(p.points.is_empty());
    assert!(p.closed);
}

#[test]
fn square_caps_extend_the_stroke() {
    let segment = || PolygonShape { points: vec![point(0, 0), point(2, 0)], closed: false };
    let butt = TessellationMode::Stroke(StrokeConfig::default());
    let square = TessellationMode::Stroke(StrokeConfig {
        start_cap: CapStyle::Square,
        end_cap: CapStyle::Square,
        ..StrokeConfig::default()
    });
    let mut tess = Tessellator::new();
    let g_butt = resolve(&Shape::Polygon(segment()), &butt, &mut tess).unwrap();
    let g_square = resolve(&Shape::Polygon(segment()), &square, &mut tess).unwrap();
    let (bx0, _, bx1, _) = bounding_box(&g_butt);
    let (sx0, _, sx1, _) = bounding_box(&g_square);
    assert_eq!((bx0, bx1), (0.0, 2.0));
    assert!(sx0 < bx0 && sx1 > bx1, "square caps at ({sx0}, {sx1})");
}

#[test]
fn round_joins_add_vertices() {
    let bend = || PolygonShape {
        points: vec![point(0, 0), point(4, 0), point(4, 4)],
        closed: false,
    };
    let miter = TessellationMode::Stroke(StrokeConfig::default());
    let round = TessellationMode::Stroke(StrokeConfig {
        line_join: JoinStyle::Round,
        tolerance: Coord::new(1, 1000),
        ..StrokeConfig::default()
    });
    let mut tess = Tessellator::new();
    let g_miter = resolve(&Shape::Polygon(bend()), &miter, &mut tess).unwrap();
    let g_round = resolve(&Shape::Polygon(bend()), &round, &mut tess).unwrap();
    assert!(g_round.vertices.len() > g_miter.vertices.len());
}

#[test]
fn open_and_closed_polygon_strokes_differ() {
    let points = vec![point(0, 0), point(4, 0), point(4, 3), point(0, 3)];
    let open_shape = Shape::Polygon(PolygonShape { points: points.clone(), closed: false });
    let closed_shape = Shape::Polygon(PolygonShape { points, closed: true });
    let mut tess = Tessellator::new();
    let mode = stroke_with_width(1, 2);
    let g_open = resolve(&open_shape, &mode, &mut tess).unwrap();
    let g_closed = resolve(&closed_shape, &mode, &mut tess).unwrap();
    assert_ne!(positions(&g_open), positions(&g_closed));
}
