//! The trusted boundary to the lyon tessellation engine.
//!
//! Everything the library states about tessellation output is stated here,
//! over abstract mesh functions (`*_mesh`): the engine is deterministic, so
//! for fixed shape parameters and options its output is a fixed mesh, and
//! the names below stand for those meshes. Each wrapper converts the exact
//! rational inputs to binary32 (through euclid's generic casts and
//! component-wise division), drives the engine into a fresh buffer, and
//! returns the buffer as plain data. Curved meshes pass through the
//! platform's sin and cos, whose last bits the standard library does not
//! promise identical across platforms: the mesh names are fixed within any
//! one build, which is all the proofs use.

use crate::coord::Coord;
use crate::coord::Vec2;
use crate::coord::rat_is_zero;
use crate::geometry::Geometry;
use crate::geometry::Vertex;
use crate::geometry::all_flat;
use crate::mode::FillConfig;
use crate::mode::CapStyle;
use crate::mode::JoinStyle;
use crate::mode::StrokeConfig;
use vstd::prelude::*;

verus! {

/// Why a conversion call returned no geometry buffer.
#[derive(Clone, Copy, Debug, PartialEq, Eq, Structural)]
pub enum ResolveError {
    /// The mode asked for an engine slot that the tessellator handle does
    /// not hold. Detected before the engine is touched.
    MissingEngine,
    /// The engine rejected the derived path (for example, it ran out of
    /// representable vertex indices). No partial buffer is exposed.
    Rejected,
}

#[verifier::external_type_specification]
#[verifier::external_body]
pub struct ExFillTessellator(lyon_tessellation::FillTessellator);

#[verifier::external_type_specification]
#[verifier::external_body]
pub struct ExStrokeTessellator(lyon_tessellation::StrokeTessellator);

#[verifier::external_type_specification]
#[verifier::external_body]
pub struct ExFillOptions(lyon_tessellation::FillOptions);

#[verifier::external_type_specification]
#[verifier::external_body]
pub struct ExStrokeOptions(lyon_tessellation::StrokeOptions);

#[verifier::external_type_specification]
#[verifier::external_body]
pub struct ExLineCap(lyon_tessellation::LineCap);

#[verifier::external_type_specification]
#[verifier::external_body]
pub struct ExLineJoin(lyon_tessellation::LineJoin);

#[verifier::external_type_specification]
#[verifier::external_body]
pub struct ExUnknownUnit(euclid::UnknownUnit);

#[verifier::external_type_specification]
#[verifier::external_body]
#[verifier::reject_recursive_types(T)]
#[verifier::reject_recursive_types(U)]
pub struct ExPoint2D<T, U>(euclid::Point2D<T, U>);

/// The reusable engine state: at most one live fill engine and at most one
/// live stroke engine, shared across conversion calls to amortize internal
/// allocation.
pub struct Tessellator {
    pub fill: Option<lyon_tessellation::FillTessellator>,
    pub stroke: Option<lyon_tessellation::StrokeTessellator>,
}

impl Tessellator {
    /// A handle with both engine slots populated.
    pub fn new() -> (t: Tessellator)
        ensures
            t.fill is Some,
            t.stroke is Some,
    {
        Tessellator { fill: Some(new_fill_engine()), stroke: Some(new_stroke_engine()) }
    }

    /// A handle with only the fill slot populated.
    pub fn new_fill_only() -> (t: Tessellator)
        ensures
            t.fill is Some,
            t.stroke is None,
    {
        Tessellator { fill: Some(new_fill_engine()), stroke: None }
    }

    /// A handle with only the stroke slot populated.
    pub fn new_stroke_only() -> (t: Tessellator)
        ensures
            t.fill is None,
            t.stroke is Some,
    {
        Tessellator { fill: None, stroke: Some(new_stroke_engine()) }
    }
}

/// Relies on lyon_tessellation's FillTessellator::new.
#[verifier::external_body]
fn new_fill_engine() -> lyon_tessellation::FillTessellator {
    lyon_tessellation::FillTessellator::new()
}

/// Relies on lyon_tessellation's StrokeTessellator::new.
#[verifier::external_body]
fn new_stroke_engine() -> lyon_tessellation::StrokeTessellator {
    lyon_tessellation::StrokeTessellator::new()
}

/// Relies on euclid's Point2D::new, cast and component_div: each component
/// is the numerator converted to binary32, divided by the denominator
/// converted to binary32 — for parts within binary32's exact integer range,
/// the value nearest to the rational. Called only from the wrapper bodies
/// below.
#[verifier::external_body]
fn coord_point(x: &Coord, y: &Coord) -> lyon_tessellation::math::Point {
    let n: lyon_tessellation::math::Point = euclid::default::Point2D::new(x.num, y.num).cast();
    let d: lyon_tessellation::math::Vector = euclid::default::Vector2D::new(x.den, y.den).cast();
    n.to_vector().component_div(d).to_point()
}

/// Relies on lyon_tessellation's LineCap: same three variants as the
/// library's. Called only from the wrapper bodies below.
#[verifier::external_body]
fn cap_style(c: CapStyle) -> lyon_tessellation::LineCap {
    match c {
        CapStyle::Butt => lyon_tessellation::LineCap::Butt,
        CapStyle::Square => lyon_tessellation::LineCap::Square,
        CapStyle::Round => lyon_tessellation::LineCap::Round,
    }
}

/// Relies on lyon_tessellation's LineJoin: same four variants as the
/// library's. Called only from the wrapper bodies below.
#[verifier::external_body]
fn join_style(j: JoinStyle) -> lyon_tessellation::LineJoin {
    match j {
        JoinStyle::Miter => lyon_tessellation::LineJoin::Miter,
        JoinStyle::MiterClip => lyon_tessellation::LineJoin::MiterClip,
        JoinStyle::Round => lyon_tessellation::LineJoin::Round,
        JoinStyle::Bevel => lyon_tessellation::LineJoin::Bevel,
    }
}

/// Relies on lyon_tessellation's FillOptions::tolerance: the engine's fill
/// options with the given flattening tolerance and the engine's defaults for
/// the rest. Called only from the wrapper bodies below.
#[verifier::external_body]
fn fill_options(cfg: &FillConfig) -> lyon_tessellation::FillOptions {
    let t = coord_point(&cfg.tolerance, &cfg.tolerance);
    lyon_tessellation::FillOptions::tolerance(t.x)
}

/// Relies on lyon_tessellation's StrokeOptions builder methods: the engine's
/// stroke options with the given tolerance, line width, caps, join and miter
/// limit. with_miter_limit asserts that the limit is at least one, so a
/// well-formed configuration is required. Called only from the wrapper
/// bodies below, whose own requirements cover it.
#[verifier::external_body]
fn stroke_options(cfg: &StrokeConfig) -> lyon_tessellation::StrokeOptions
    requires
        cfg.wf(),
{
    let t = coord_point(&cfg.tolerance, &cfg.line_width);
    let m = coord_point(&cfg.miter_limit, &cfg.miter_limit);
    lyon_tessellation::StrokeOptions::tolerance(t.x)
        .with_line_width(t.y)
        .with_miter_limit(m.x)
        .with_start_cap(cap_style(cfg.start_cap))
        .with_end_cap(cap_style(cfg.end_cap))
        .with_line_join(join_style(cfg.line_join))
}

/// The views of a point list, for the polygon mesh functions.
pub open spec fn points_view(pts: Seq<Vec2>) -> Seq<((int, int), (int, int))> {
    pts.map_values(|p: Vec2| p@)
}

/// Whether the fill engine accepts a circle: like the mesh itself, a
/// function of the inputs alone — the tessellator resets its state per call
/// and every failure path is computed from the path and options (it runs
/// out of representable vertex indices, or rejects a degenerate sweep).
pub uninterp spec fn circle_fill_accepts(cx: (int, int), cy: (int, int), radius: (int, int), cfg: FillConfig) -> bool;

/// Whether the fill engine accepts an axis-aligned ellipse; deterministic in
/// the inputs, as for `circle_fill_accepts`.
pub uninterp spec fn ellipse_fill_accepts(cx: (int, int), cy: (int, int), rx: (int, int), ry: (int, int), cfg: FillConfig) -> bool;

/// Whether the fill engine accepts a polygon; deterministic in the inputs,
/// as for `circle_fill_accepts`.
pub uninterp spec fn polygon_fill_accepts(pts: Seq<((int, int), (int, int))>, closed: bool, cfg: FillConfig) -> bool;

/// The mesh the engine fills a rectangle with: anchor `(ax, ay)`, extent
/// `(w, h)`. The engine ignores the fill options for rectangles, so they are
/// no argument here.
pub uninterp spec fn rect_fill_mesh(ax: (int, int), ay: (int, int), w: (int, int), h: (int, int)) -> (Seq<Vertex>, Seq<u32>);

/// The mesh the engine strokes a rectangle's outline with.
pub uninterp spec fn rect_stroke_mesh(ax: (int, int), ay: (int, int), w: (int, int), h: (int, int), cfg: StrokeConfig) -> (Seq<Vertex>, Seq<u32>);

/// The mesh the engine fills a circle with.
pub uninterp spec fn circle_fill_mesh(cx: (int, int), cy: (int, int), radius: (int, int), cfg: FillConfig) -> (Seq<Vertex>, Seq<u32>);

/// The mesh the engine strokes a circle's outline with.
pub uninterp spec fn circle_stroke_mesh(cx: (int, int), cy: (int, int), radius: (int, int), cfg: StrokeConfig) -> (Seq<Vertex>, Seq<u32>);

/// The mesh the engine fills an axis-aligned ellipse with (rotation angle
/// fixed at zero, winding fixed positive).
pub uninterp spec fn ellipse_fill_mesh(cx: (int, int), cy: (int, int), rx: (int, int), ry: (int, int), cfg: FillConfig) -> (Seq<Vertex>, Seq<u32>);

/// The mesh the engine strokes an axis-aligned ellipse's outline with
/// (rotation angle fixed at zero, winding fixed positive).
pub uninterp spec fn ellipse_stroke_mesh(cx: (int, int), cy: (int, int), rx: (int, int), ry: (int, int), cfg: StrokeConfig) -> (Seq<Vertex>, Seq<u32>);

/// The mesh the engine fills a polygon with.
pub uninterp spec fn polygon_fill_mesh(pts: Seq<((int, int), (int, int))>, closed: bool, cfg: FillConfig) -> (Seq<Vertex>, Seq<u32>);

/// The mesh the engine strokes a polygon's outline with.
pub uninterp spec fn polygon_stroke_mesh(pts: Seq<((int, int), (int, int))>, closed: bool, cfg: StrokeConfig) -> (Seq<Vertex>, Seq<u32>);

/// Relies on lyon_tessellation's FillTessellator::tessellate_rectangle: it
/// emits exactly the rectangle's four corners and the two triangles
/// 0-1-2 and 0-2-3, ignores the options, and cannot fail with a fresh
/// u32-indexed buffer (it only errors when the sink refuses a vertex).
/// The sink appends indices only in triples of previously added vertices,
/// so the buffer is a valid triangle list.
#[verifier::external_body]
pub(crate) fn rect_fill(t: &mut lyon_tessellation::FillTessellator, ax: &Coord, ay: &Coord, w: &Coord, h: &Coord, cfg: &FillConfig) -> (g: Geometry)
    ensures
        g.mesh() == rect_fill_mesh(ax@, ay@, w@, h@),
        g.vertices@.len() == 4,
        g.indices@ == seq![0u32, 1u32, 2u32, 0u32, 2u32, 3u32],
        all_flat(g.vertices@),
        g.valid_triangles(),
{
    let origin = coord_point(ax, ay);
    let extent = coord_point(w, h);
    let mut buf: lyon_tessellation::VertexBuffers<Vertex, u32> = lyon_tessellation::VertexBuffers::new();
    let mut sink = lyon_tessellation::BuffersBuilder::new(&mut buf, |v: lyon_tessellation::FillVertex| Vertex::from_position_bits(v.position().x.to_bits(), v.position().y.to_bits()));
    let rect = lyon_tessellation::math::Rect::new(origin, lyon_tessellation::math::Size::new(extent.x, extent.y));
    let _ = t.tessellate_rectangle(&rect, &fill_options(cfg), &mut sink);
    Geometry { vertices: buf.vertices, indices: buf.indices }
}

/// Relies on lyon_tessellation's StrokeTessellator::tessellate_rectangle,
/// which returns Ok unconditionally with a fresh u32-indexed buffer. The
/// sink appends indices only in triples of previously added vertices, so
/// the buffer is a valid triangle list.
#[verifier::external_body]
pub(crate) fn rect_stroke(t: &mut lyon_tessellation::StrokeTessellator, ax: &Coord, ay: &Coord, w: &Coord, h: &Coord, cfg: &StrokeConfig) -> (g: Geometry)
    requires
        ax.bounded(),
        ay.bounded(),
        w.bounded(),
        h.bounded(),
        cfg.wf(),
    ensures
        g.mesh() == rect_stroke_mesh(ax@, ay@, w@, h@, *cfg),
        all_flat(g.vertices@),
        g.valid_triangles(),
{
    let origin = coord_point(ax, ay);
    let extent = coord_point(w, h);
    let mut buf: lyon_tessellation::VertexBuffers<Vertex, u32> = lyon_tessellation::VertexBuffers::new();
    let mut sink = lyon_tessellation::BuffersBuilder::new(&mut buf, |v: lyon_tessellation::StrokeVertex| Vertex::from_position_bits(v.position().x.to_bits(), v.position().y.to_bits()));
    let rect = lyon_tessellation::math::Rect::new(origin, lyon_tessellation::math::Size::new(extent.x, extent.y));
    let _ = t.tessellate_rectangle(&rect, &stroke_options(cfg), &mut sink);
    Geometry { vertices: buf.vertices, indices: buf.indices }
}

/// Relies on lyon_tessellation's FillTessellator::tessellate_circle: a zero
/// radius yields Ok with an empty mesh; otherwise the circle's four extreme
/// points are emitted before any refinement, so a successful mesh holds at
/// least four vertices. Fails only when the engine runs out of representable
/// vertex indices — a condition computed from the inputs alone, named
/// `circle_fill_accepts`. The sink appends indices only in triples of
/// previously added vertices, so a successful buffer is a valid triangle
/// list.
#[verifier::external_body]
pub(crate) fn circle_fill(t: &mut lyon_tessellation::FillTessellator, cx: &Coord, cy: &Coord, radius: &Coord, cfg: &FillConfig) -> (r: Result<Geometry, ResolveError>)
    requires
        cx.bounded(),
        cy.bounded(),
        radius.wf(),
        cfg.wf(),
    ensures
        r matches Ok(g) ==> g.mesh() == circle_fill_mesh(cx@, cy@, radius@, *cfg) && all_flat(
            g.vertices@,
        ) && g.valid_triangles() && (rat_is_zero(radius@) ==> g.is_empty()) && (!rat_is_zero(
            radius@,
        ) ==> g.vertices@.len() >= 4),
        r matches Err(e) ==> e == ResolveError::Rejected,
        r is Ok <==> circle_fill_accepts(cx@, cy@, radius@, *cfg),
        r is Ok || !rat_is_zero(radius@),
{
    let c = coord_point(cx, cy);
    let rad = coord_point(radius, radius);
    let mut buf: lyon_tessellation::VertexBuffers<Vertex, u32> = lyon_tessellation::VertexBuffers::new();
    let mut sink = lyon_tessellation::BuffersBuilder::new(&mut buf, |v: lyon_tessellation::FillVertex| Vertex::from_position_bits(v.position().x.to_bits(), v.position().y.to_bits()));
    match t.tessellate_circle(c, rad.x, &fill_options(cfg), &mut sink) {
        Ok(_) => Ok(Geometry { vertices: buf.vertices, indices: buf.indices }),
        Err(_) => Err(ResolveError::Rejected),
    }
}

/// Relies on lyon_tessellation's StrokeTessellator::tessellate_circle, which
/// returns Ok unconditionally with a fresh u32-indexed buffer.
#[verifier::external_body]
pub(crate) fn circle_stroke(t: &mut lyon_tessellation::StrokeTessellator, cx: &Coord, cy: &Coord, radius: &Coord, cfg: &StrokeConfig) -> (g: Geometry)
    requires
        cx.bounded(),
        cy.bounded(),
        radius.bounded(),
        cfg.wf(),
    ensures
        g.mesh() == circle_stroke_mesh(cx@, cy@, radius@, *cfg),
        all_flat(g.vertices@),
        g.valid_triangles(),
{
    let c = coord_point(cx, cy);
    let rad = coord_point(radius, radius);
    let mut buf: lyon_tessellation::VertexBuffers<Vertex, u32> = lyon_tessellation::VertexBuffers::new();
    let mut sink = lyon_tessellation::BuffersBuilder::new(&mut buf, |v: lyon_tessellation::StrokeVertex| Vertex::from_position_bits(v.position().x.to_bits(), v.position().y.to_bits()));
    let _ = t.tessellate_circle(c, rad.x, &stroke_options(cfg), &mut sink);
    Geometry { vertices: buf.vertices, indices: buf.indices }
}

/// Relies on lyon_tessellation's FillTessellator::tessellate_ellipse, called
/// with rotation angle zero and positive winding. Fails only when the engine
/// rejects the derived path — a condition computed from the inputs alone
/// (the tessellator resets its state per call), named
/// `ellipse_fill_accepts`. The sink appends indices only in triples of
/// previously added vertices, so a successful buffer is a valid triangle
/// list. Bounded coordinates are required: a coordinate with a zero
/// denominator would reach the sweep as NaN or infinity, whose sort keys
/// can panic it.
#[verifier::external_body]
pub(crate) fn ellipse_fill(t: &mut lyon_tessellation::FillTessellator, cx: &Coord, cy: &Coord, rx: &Coord, ry: &Coord, cfg: &FillConfig) -> (r: Result<Geometry, ResolveError>)
    requires
        cx.bounded(),
        cy.bounded(),
        rx.bounded(),
        ry.bounded(),
        cfg.wf(),
    ensures
        r matches Ok(g) ==> g.mesh() == ellipse_fill_mesh(cx@, cy@, rx@, ry@, *cfg) && all_flat(
            g.vertices@,
        ) && g.valid_triangles(),
        r matches Err(e) ==> e == ResolveError::Rejected,
        r is Ok <==> ellipse_fill_accepts(cx@, cy@, rx@, ry@, *cfg),
{
    let c = coord_point(cx, cy);
    let radii = coord_point(rx, ry).to_vector();
    let mut buf: lyon_tessellation::VertexBuffers<Vertex, u32> = lyon_tessellation::VertexBuffers::new();
    let mut sink = lyon_tessellation::BuffersBuilder::new(&mut buf, |v: lyon_tessellation::FillVertex| Vertex::from_position_bits(v.position().x.to_bits(), v.position().y.to_bits()));
    match t.tessellate_ellipse(c, radii, lyon_tessellation::math::Angle::zero(), lyon_tessellation::path::Winding::Positive, &fill_options(cfg), &mut sink) {
        Ok(_) => Ok(Geometry { vertices: buf.vertices, indices: buf.indices }),
        Err(_) => Err(ResolveError::Rejected),
    }
}

/// Relies on lyon_tessellation's StrokeTessellator::tessellate_ellipse,
/// called with rotation angle zero and positive winding; it returns Ok
/// unconditionally with a fresh u32-indexed buffer.
#[verifier::external_body]
pub(crate) fn ellipse_stroke(t: &mut lyon_tessellation::StrokeTessellator, cx: &Coord, cy: &Coord, rx: &Coord, ry: &Coord, cfg: &StrokeConfig) -> (g: Geometry)
    requires
        cx.bounded(),
        cy.bounded(),
        rx.bounded(),
        ry.bounded(),
        cfg.wf(),
    ensures
        g.mesh() == ellipse_stroke_mesh(cx@, cy@, rx@, ry@, *cfg),
        all_flat(g.vertices@),
        g.valid_triangles(),
{
    let c = coord_point(cx, cy);
    let radii = coord_point(rx, ry).to_vector();
    let mut buf: lyon_tessellation::VertexBuffers<Vertex, u32> = lyon_tessellation::VertexBuffers::new();
    let mut sink = lyon_tessellation::BuffersBuilder::new(&mut buf, |v: lyon_tessellation::StrokeVertex| Vertex::from_position_bits(v.position().x.to_bits(), v.position().y.to_bits()));
    let _ = t.tessellate_ellipse(c, radii, lyon_tessellation::math::Angle::zero(), lyon_tessellation::path::Winding::Positive, &stroke_options(cfg), &mut sink);
    Geometry { vertices: buf.vertices, indices: buf.indices }
}

/// Relies on lyon_tessellation's FillTessellator::tessellate_polygon: the
/// ordered point list is passed as one polygon with its closed flag; an
/// empty list yields no path events, hence Ok and an empty mesh. Fails only
/// when the engine rejects the derived path — a condition computed from the
/// inputs alone (the tessellator resets its state per call), named
/// `polygon_fill_accepts`. The sink appends indices only in triples of
/// previously added vertices, so a successful buffer is a valid triangle
/// list. Bounded points are required: a coordinate with a zero denominator
/// would reach the sweep as NaN or infinity, whose sort keys can panic it.
#[verifier::external_body]
pub(crate) fn polygon_fill(t: &mut lyon_tessellation::FillTessellator, pts: &Vec<Vec2>, closed: bool, cfg: &FillConfig) -> (r: Result<Geometry, ResolveError>)
    requires
        forall|i: int| 0 <= i < pts@.len() ==> pts@[i].bounded(),
        cfg.wf(),
    ensures
        r matches Ok(g) ==> g.mesh() == polygon_fill_mesh(points_view(pts@), closed, *cfg)
            && all_flat(g.vertices@) && g.valid_triangles() && (pts@.len() == 0 ==> g.is_empty()),
        r matches Err(e) ==> e == ResolveError::Rejected,
        r is Ok <==> polygon_fill_accepts(points_view(pts@), closed, *cfg),
        r is Ok || pts@.len() > 0,
{
    let lp: Vec<lyon_tessellation::math::Point> = pts.iter().map(|p| coord_point(&p.x, &p.y)).collect();
    let polygon = lyon_tessellation::path::Polygon { points: lp.as_slice(), closed };
    let mut buf: lyon_tessellation::VertexBuffers<Vertex, u32> = lyon_tessellation::VertexBuffers::new();
    let mut sink = lyon_tessellation::BuffersBuilder::new(&mut buf, |v: lyon_tessellation::FillVertex| Vertex::from_position_bits(v.position().x.to_bits(), v.position().y.to_bits()));
    match t.tessellate_polygon(polygon, &fill_options(cfg), &mut sink) {
        Ok(_) => Ok(Geometry { vertices: buf.vertices, indices: buf.indices }),
        Err(_) => Err(ResolveError::Rejected),
    }
}

/// Relies on lyon_tessellation's StrokeTessellator::tessellate_polygon: an
/// empty point list yields no path events, hence an empty mesh; the call
/// returns Ok unconditionally with a fresh u32-indexed buffer.
#[verifier::external_body]
pub(crate) fn polygon_stroke(t: &mut lyon_tessellation::StrokeTessellator, pts: &Vec<Vec2>, closed: bool, cfg: &StrokeConfig) -> (g: Geometry)
    requires
        forall|i: int| 0 <= i < pts@.len() ==> pts@[i].bounded(),
        cfg.wf(),
    ensures
        g.mesh() == polygon_stroke_mesh(points_view(pts@), closed, *cfg),
        all_flat(g.vertices@),
        g.valid_triangles(),
        pts@.len() == 0 ==> g.is_empty(),
{
    let lp: Vec<lyon_tessellation::math::Point> = pts.iter().map(|p| coord_point(&p.x, &p.y)).collect();
    let polygon = lyon_tessellation::path::Polygon { points: lp.as_slice(), closed };
    let mut buf: lyon_tessellation::VertexBuffers<Vertex, u32> = lyon_tessellation::VertexBuffers::new();
    let mut sink = lyon_tessellation::BuffersBuilder::new(&mut buf, |v: lyon_tessellation::StrokeVertex| Vertex::from_position_bits(v.position().x.to_bits(), v.position().y.to_bits()));
    let _ = t.tessellate_polygon(polygon, &stroke_options(cfg), &mut sink);
    Geometry { vertices: buf.vertices, indices: buf.indices }
}

} // verus!
