//! The shape descriptions and their geometry resolvers.
//!
//! Each shape kind converts its own parameters into the path the engine
//! expects and drives the fill or stroke entry point for that kind, writing
//! through the shared vertex constructor into a fresh geometry buffer. The
//! shape kinds are a closed set, so dispatch is a match over a sum type.

use crate::coord::Coord;
use crate::coord::Vec2;
use crate::coord::rat_is_zero;
use crate::engine::ResolveError;
use crate::engine::Tessellator;
use crate::engine::circle_fill;
use crate::engine::circle_fill_accepts;
use crate::engine::circle_fill_mesh;
use crate::engine::circle_stroke;
use crate::engine::circle_stroke_mesh;
use crate::engine::ellipse_fill;
use crate::engine::ellipse_fill_accepts;
use crate::engine::ellipse_fill_mesh;
use crate::engine::ellipse_stroke;
use crate::engine::ellipse_stroke_mesh;
use crate::engine::points_view;
use crate::engine::polygon_fill;
use crate::engine::polygon_fill_accepts;
use crate::engine::polygon_fill_mesh;
use crate::engine::polygon_stroke;
use crate::engine::polygon_stroke_mesh;
use crate::engine::rect_fill;
use crate::engine::rect_fill_mesh;
use crate::engine::rect_stroke;
use crate::engine::rect_stroke_mesh;
use crate::geometry::Geometry;
use crate::geometry::Vertex;
use crate::geometry::all_flat;
use crate::mode::TessellationMode;
use vstd::prelude::*;

verus! {

/// Defines where the origin, or pivot, of a rectangle should be positioned.
#[derive(Clone, Copy, Debug, PartialEq, Eq, Structural)]
pub enum RectangleOrigin {
    Center,
    BottomLeft,
    BottomRight,
    TopRight,
    TopLeft,
}

impl Default for RectangleOrigin {
    fn default() -> (o: RectangleOrigin)
        ensures
            o == RectangleOrigin::Center,
    {
        RectangleOrigin::Center
    }
}

/// The x coordinate of the corner anchor: the rectangle's bounding box
/// spans `[anchor_x, anchor_x + w]` horizontally.
pub open spec fn anchor_x(origin: RectangleOrigin, w: (int, int)) -> (int, int) {
    match origin {
        RectangleOrigin::Center => (-w.0, 2 * w.1),
        RectangleOrigin::BottomLeft => (0int, 1int),
        RectangleOrigin::BottomRight => (-w.0, w.1),
        RectangleOrigin::TopRight => (-w.0, w.1),
        RectangleOrigin::TopLeft => (0int, 1int),
    }
}

/// The y coordinate of the corner anchor: the rectangle's bounding box
/// spans `[anchor_y, anchor_y + h]` vertically.
pub open spec fn anchor_y(origin: RectangleOrigin, h: (int, int)) -> (int, int) {
    match origin {
        RectangleOrigin::Center => (-h.0, 2 * h.1),
        RectangleOrigin::BottomLeft => (0int, 1int),
        RectangleOrigin::BottomRight => (0int, 1int),
        RectangleOrigin::TopRight => (-h.0, h.1),
        RectangleOrigin::TopLeft => (-h.0, h.1),
    }
}

#[derive(Clone, Copy, Debug, PartialEq, Eq, Structural)]
pub struct RectangleShape {
    pub width: Coord,
    pub height: Coord,
    pub origin: RectangleOrigin,
}

impl Default for RectangleShape {
    fn default() -> (s: RectangleShape)
        ensures
            s.wf(),
            s == (RectangleShape {
                width: Coord { num: 1, den: 1 },
                height: Coord { num: 1, den: 1 },
                origin: RectangleOrigin::Center,
            }),
    {
        RectangleShape {
            width: Coord::one(),
            height: Coord::one(),
            origin: RectangleOrigin::Center,
        }
    }
}

impl RectangleShape {
    pub open spec fn wf(self) -> bool {
        self.width.wf() && self.height.wf()
    }

    /// The corner anchor selected by the origin variant, exactly.
    pub fn anchor(&self) -> (a: (Coord, Coord))
        requires
            self.wf(),
        ensures
            a.0@ == anchor_x(self.origin, self.width@),
            a.1@ == anchor_y(self.origin, self.height@),
    {
        match self.origin {
            RectangleOrigin::Center => (
                Coord { num: -self.width.num, den: 2 * self.width.den },
                Coord { num: -self.height.num, den: 2 * self.height.den },
            ),
            RectangleOrigin::BottomLeft => (Coord { num: 0, den: 1 }, Coord { num: 0, den: 1 }),
            RectangleOrigin::BottomRight => (
                Coord { num: -self.width.num, den: self.width.den },
                Coord { num: 0, den: 1 },
            ),
            RectangleOrigin::TopRight => (
                Coord { num: -self.width.num, den: self.width.den },
                Coord { num: -self.height.num, den: self.height.den },
            ),
            RectangleOrigin::TopLeft => (
                Coord { num: 0, den: 1 },
                Coord { num: -self.height.num, den: self.height.den },
            ),
        }
    }
}

#[derive(Clone, Copy, Debug, PartialEq, Eq, Structural)]
pub struct CircleShape {
    /// Distance of the border of the circle from the center.
    pub radius: Coord,
    /// The position of the center of the circle, in the shape's local frame.
    pub center: Vec2,
}

impl Default for CircleShape {
    fn default() -> (s: CircleShape)
        ensures
            s.wf(),
            s == (CircleShape {
                radius: Coord { num: 1, den: 1 },
                center: Vec2 { x: Coord { num: 0, den: 1 }, y: Coord { num: 0, den: 1 } },
            }),
    {
        CircleShape { radius: Coord::one(), center: Vec2::zero() }
    }
}

impl CircleShape {
    pub open spec fn wf(self) -> bool {
        self.radius.wf() && self.center.wf()
    }
}

#[derive(Clone, Copy, Debug, PartialEq, Eq, Structural)]
pub struct EllipseShape {
    /// The two half-axis lengths, horizontal then vertical.
    pub radii: Vec2,
    /// The position of the center of the ellipse, in the shape's local frame.
    pub center: Vec2,
}

impl Default for EllipseShape {
    fn default() -> (s: EllipseShape)
        ensures
            s.wf(),
            s == (EllipseShape {
                radii: Vec2 { x: Coord { num: 1, den: 1 }, y: Coord { num: 1, den: 1 } },
                center: Vec2 { x: Coord { num: 0, den: 1 }, y: Coord { num: 0, den: 1 } },
            }),
    {
        EllipseShape { radii: Vec2::one(), center: Vec2::zero() }
    }
}

impl EllipseShape {
    pub open spec fn wf(self) -> bool {
        self.radii.wf() && self.center.wf()
    }
}

#[derive(Debug, PartialEq)]
pub struct PolygonShape {
    /// The boundary, in traversal order. May be empty: that is degenerate
    /// but valid and yields an empty mesh.
    pub points: Vec<Vec2>,
    pub closed: bool,
}

impl Default for PolygonShape {
    fn default() -> (s: PolygonShape)
        ensures
            s.wf(),
            s.points@.len() == 0,
            s.closed,
    {
        PolygonShape { points: Vec::new(), closed: true }
    }
}

impl PolygonShape {
    pub open spec fn wf(self) -> bool {
        forall|i: int| 0 <= i < self.points@.len() ==> self.points@[i].wf()
    }
}

/// The closed set of shape kinds, dispatched by match.
#[derive(Debug, PartialEq)]
pub enum Shape {
    Rectangle(RectangleShape),
    Circle(CircleShape),
    Ellipse(EllipseShape),
    Polygon(PolygonShape),
}

impl Shape {
    pub open spec fn wf(self) -> bool {
        match self {
            Shape::Rectangle(s) => s.wf(),
            Shape::Circle(s) => s.wf(),
            Shape::Ellipse(s) => s.wf(),
            Shape::Polygon(s) => s.wf(),
        }
    }
}

/// The mode asks for an engine slot that the handle does not hold.
pub open spec fn slot_missing(mode: TessellationMode, t: Tessellator) -> bool {
    match mode {
        TessellationMode::Fill(_) => t.fill is None,
        TessellationMode::Stroke(_) => t.stroke is None,
    }
}

/// Whether the engine serves the conversion, once the matching slot is
/// there: a fixed function of the shape and the mode alone, since the
/// engine's acceptance is deterministic. Stroke tessellation and rectangle
/// fill always succeed; the other fill paths succeed exactly when the
/// engine accepts the derived path.
pub open spec fn engine_accepts(shape: Shape, mode: TessellationMode) -> bool {
    match mode {
        TessellationMode::Fill(c) => match shape {
            Shape::Rectangle(_) => true,
            Shape::Circle(s) => circle_fill_accepts(s.center.x@, s.center.y@, s.radius@, c),
            Shape::Ellipse(s) => ellipse_fill_accepts(
                s.center.x@,
                s.center.y@,
                s.radii.x@,
                s.radii.y@,
                c,
            ),
            Shape::Polygon(s) => polygon_fill_accepts(points_view(s.points@), s.closed, c),
        },
        TessellationMode::Stroke(_) => true,
    }
}

/// The mesh a conversion call returns on success: a fixed function of the
/// shape and the mode alone, since the engine is deterministic. Calling
/// resolve twice with the same shape and mode yields the same mesh.
pub open spec fn mesh_of(shape: Shape, mode: TessellationMode) -> (Seq<Vertex>, Seq<u32>) {
    match mode {
        TessellationMode::Fill(c) => match shape {
            Shape::Rectangle(s) => rect_fill_mesh(
                anchor_x(s.origin, s.width@),
                anchor_y(s.origin, s.height@),
                s.width@,
                s.height@,
            ),
            Shape::Circle(s) => circle_fill_mesh(s.center.x@, s.center.y@, s.radius@, c),
            Shape::Ellipse(s) => ellipse_fill_mesh(
                s.center.x@,
                s.center.y@,
                s.radii.x@,
                s.radii.y@,
                c,
            ),
            Shape::Polygon(s) => polygon_fill_mesh(points_view(s.points@), s.closed, c),
        },
        TessellationMode::Stroke(c) => match shape {
            Shape::Rectangle(s) => rect_stroke_mesh(
                anchor_x(s.origin, s.width@),
                anchor_y(s.origin, s.height@),
                s.width@,
                s.height@,
                c,
            ),
            Shape::Circle(s) => circle_stroke_mesh(s.center.x@, s.center.y@, s.radius@, c),
            Shape::Ellipse(s) => ellipse_stroke_mesh(
                s.center.x@,
                s.center.y@,
                s.radii.x@,
                s.radii.y@,
                c,
            ),
            Shape::Polygon(s) => polygon_stroke_mesh(points_view(s.points@), s.closed, c),
        },
    }
}

impl RectangleShape {
    /// Resolve this rectangle to a mesh under the given mode. Never rejected
    /// by the engine: it fails exactly when the matching engine slot is
    /// absent.
    pub fn resolve(&self, mode: &TessellationMode, tess: &mut Tessellator) -> (r: Result<
        Geometry,
        ResolveError,
    >)
        requires
            self.wf(),
            mode.wf(),
        ensures
            r matches Ok(g) ==> g.mesh() == mesh_of(Shape::Rectangle(*self), *mode) && all_flat(
                g.vertices@,
            ) && g.valid_triangles(),
            r is Err <==> slot_missing(*mode, *old(tess)),
            r matches Err(e) ==> e == ResolveError::MissingEngine,
            mode matches TessellationMode::Fill(_) ==> final(tess).stroke == old(tess).stroke,
            mode matches TessellationMode::Stroke(_) ==> final(tess).fill == old(tess).fill,
            final(tess).fill is Some <==> old(tess).fill is Some,
            final(tess).stroke is Some <==> old(tess).stroke is Some,
            r matches Ok(g) ==> (mode matches TessellationMode::Fill(_) ==> g.vertices@.len() == 4
                && g.indices@ == seq![0u32, 1u32, 2u32, 0u32, 2u32, 3u32]),
    {
        let (ax, ay) = self.anchor();
        match mode {
            TessellationMode::Fill(cfg) => match &mut tess.fill {
                Some(engine) => Ok(rect_fill(engine, &ax, &ay, &self.width, &self.height, cfg)),
                None => Err(ResolveError::MissingEngine),
            },
            TessellationMode::Stroke(cfg) => match &mut tess.stroke {
                Some(engine) => Ok(rect_stroke(engine, &ax, &ay, &self.width, &self.height, cfg)),
                None => Err(ResolveError::MissingEngine),
            },
        }
    }
}

impl CircleShape {
    /// Resolve this circle to a mesh under the given mode. A zero radius is
    /// degenerate but valid: it yields an empty mesh, not an error.
    pub fn resolve(&self, mode: &TessellationMode, tess: &mut Tessellator) -> (r: Result<
        Geometry,
        ResolveError,
    >)
        requires
            self.wf(),
            mode.wf(),
        ensures
            r matches Ok(g) ==> g.mesh() == mesh_of(Shape::Circle(*self), *mode) && all_flat(
                g.vertices@,
            ) && g.valid_triangles(),
            (r matches Err(e) && e == ResolveError::MissingEngine) <==> slot_missing(
                *mode,
                *old(tess),
            ),
            mode matches TessellationMode::Fill(_) ==> final(tess).stroke == old(tess).stroke,
            mode matches TessellationMode::Stroke(_) ==> final(tess).fill == old(tess).fill,
            final(tess).fill is Some <==> old(tess).fill is Some,
            final(tess).stroke is Some <==> old(tess).stroke is Some,
            !slot_missing(*mode, *old(tess)) ==> (r is Ok <==> engine_accepts(
                Shape::Circle(*self),
                *mode,
            )),
            r matches Ok(g) ==> (mode matches TessellationMode::Fill(_) ==> ((rat_is_zero(
                self.radius@,
            ) ==> g.is_empty()) && (!rat_is_zero(self.radius@) ==> g.vertices@.len() >= 4))),
            mode matches TessellationMode::Fill(_) && !slot_missing(*mode, *old(tess))
                && rat_is_zero(self.radius@) ==> r is Ok,
    {
        match mode {
            TessellationMode::Fill(cfg) => match &mut tess.fill {
                Some(engine) => circle_fill(
                    engine,
                    &self.center.x,
                    &self.center.y,
                    &self.radius,
                    cfg,
                ),
                None => Err(ResolveError::MissingEngine),
            },
            TessellationMode::Stroke(cfg) => match &mut tess.stroke {
                Some(engine) => Ok(
                    circle_stroke(engine, &self.center.x, &self.center.y, &self.radius, cfg),
                ),
                None => Err(ResolveError::MissingEngine),
            },
        }
    }
}

impl EllipseShape {
    /// Resolve this ellipse to a mesh under the given mode. The rotation
    /// angle is fixed at zero and the winding fixed positive: neither is
    /// configurable in this version.
    pub fn resolve(&self, mode: &TessellationMode, tess: &mut Tessellator) -> (r: Result<
        Geometry,
        ResolveError,
    >)
        requires
            self.wf(),
            mode.wf(),
        ensures
            r matches Ok(g) ==> g.mesh() == mesh_of(Shape::Ellipse(*self), *mode) && all_flat(
                g.vertices@,
            ) && g.valid_triangles(),
            (r matches Err(e) && e == ResolveError::MissingEngine) <==> slot_missing(
                *mode,
                *old(tess),
            ),
            mode matches TessellationMode::Fill(_) ==> final(tess).stroke == old(tess).stroke,
            mode matches TessellationMode::Stroke(_) ==> final(tess).fill == old(tess).fill,
            final(tess).fill is Some <==> old(tess).fill is Some,
            final(tess).stroke is Some <==> old(tess).stroke is Some,
            !slot_missing(*mode, *old(tess)) ==> (r is Ok <==> engine_accepts(
                Shape::Ellipse(*self),
                *mode,
            )),
    {
        match mode {
            TessellationMode::Fill(cfg) => match &mut tess.fill {
                Some(engine) => ellipse_fill(
                    engine,
                    &self.center.x,
                    &self.center.y,
                    &self.radii.x,
                    &self.radii.y,
                    cfg,
                ),
                None => Err(ResolveError::MissingEngine),
            },
            TessellationMode::Stroke(cfg) => match &mut tess.stroke {
                Some(engine) => Ok(
                    ellipse_stroke(
                        engine,
                        &self.center.x,
                        &self.center.y,
                        &self.radii.x,
                        &self.radii.y,
                        cfg,
                    ),
                ),
                None => Err(ResolveError::MissingEngine),
            },
        }
    }
}

impl PolygonShape {
    /// Resolve this polygon to a mesh under the given mode. An empty point
    /// list yields an empty mesh, never an error.
    pub fn resolve(&self, mode: &TessellationMode, tess: &mut Tessellator) -> (r: Result<
        Geometry,
        ResolveError,
    >)
        requires
            self.wf(),
            mode.wf(),
        ensures
            r matches Ok(g) ==> g.mesh() == mesh_of(Shape::Polygon(*self), *mode) && all_flat(
                g.vertices@,
            ) && g.valid_triangles(),
            (r matches Err(e) && e == ResolveError::MissingEngine) <==> slot_missing(
                *mode,
                *old(tess),
            ),
            mode matches TessellationMode::Fill(_) ==> final(tess).stroke == old(tess).stroke,
            mode matches TessellationMode::Stroke(_) ==> final(tess).fill == old(tess).fill,
            final(tess).fill is Some <==> old(tess).fill is Some,
            final(tess).stroke is Some <==> old(tess).stroke is Some,
            !slot_missing(*mode, *old(tess)) ==> (r is Ok <==> engine_accepts(
                Shape::Polygon(*self),
                *mode,
            )),
            r matches Ok(g) ==> (self.points@.len() == 0 ==> g.is_empty()),
            self.points@.len() == 0 && !slot_missing(*mode, *old(tess)) ==> r is Ok,
    {
        match mode {
            TessellationMode::Fill(cfg) => match &mut tess.fill {
                Some(engine) => polygon_fill(engine, &self.points, self.closed, cfg),
                None => Err(ResolveError::MissingEngine),
            },
            TessellationMode::Stroke(cfg) => match &mut tess.stroke {
                Some(engine) => Ok(polygon_stroke(engine, &self.points, self.closed, cfg)),
                None => Err(ResolveError::MissingEngine),
            },
        }
    }
}

/// Resolve any shape to a mesh: the single dispatch over the closed set of
/// shape kinds. On success the buffer holds exactly the mesh of the shape
/// under the mode, as a valid flat triangle list; it fails with
/// MissingEngine exactly when the matching engine slot is absent, succeeds
/// exactly when that slot is there and the engine accepts the conversion,
/// and never touches the other slot.
pub fn resolve(shape: &Shape, mode: &TessellationMode, tess: &mut Tessellator) -> (r: Result<
    Geometry,
    ResolveError,
>)
    requires
        shape.wf(),
        mode.wf(),
    ensures
        r matches Ok(g) ==> g.mesh() == mesh_of(*shape, *mode) && all_flat(g.vertices@)
            && g.valid_triangles(),
        (r matches Err(e) && e == ResolveError::MissingEngine) <==> slot_missing(
            *mode,
            *old(tess),
        ),
        mode matches TessellationMode::Fill(_) ==> final(tess).stroke == old(tess).stroke,
        mode matches TessellationMode::Stroke(_) ==> final(tess).fill == old(tess).fill,
        final(tess).fill is Some <==> old(tess).fill is Some,
        final(tess).stroke is Some <==> old(tess).stroke is Some,
        !slot_missing(*mode, *old(tess)) ==> (r is Ok <==> engine_accepts(*shape, *mode)),
        r matches Ok(g) ==> ((shape matches Shape::Rectangle(_) && mode matches
            TessellationMode::Fill(_)) ==> g.vertices@.len() == 4 && g.indices@ == seq![
            0u32,
            1u32,
            2u32,
            0u32,
            2u32,
            3u32,
        ]),
        r matches Ok(g) ==> ((shape matches Shape::Circle(s) && mode matches
            TessellationMode::Fill(_) && !rat_is_zero(s.radius@)) ==> g.vertices@.len() >= 4),
        r matches Ok(g) ==> ((shape matches Shape::Polygon(s) && s.points@.len() == 0)
            ==> g.is_empty()),
        shape matches Shape::Polygon(s) && s.points@.len() == 0 && !slot_missing(
            *mode,
            *old(tess),
        ) ==> r is Ok,
{
    match shape {
        Shape::Rectangle(s) => s.resolve(mode, tess),
        Shape::Circle(s) => s.resolve(mode, tess),
        Shape::Ellipse(s) => s.resolve(mode, tess),
        Shape::Polygon(s) => s.resolve(mode, tess),
    }
}

} // verus!
