//! The tessellation mode: fill or stroke, each with its numeric options.

use crate::coord::Coord;
use crate::coord::rat_ge_one;
use crate::coord::rat_is_pos;
use vstd::prelude::*;

verus! {

/// Line cap style for stroked sub-path endpoints, as in the SVG
/// specification.
#[derive(Clone, Copy, Debug, PartialEq, Eq, Structural)]
pub enum CapStyle {
    Butt,
    Square,
    Round,
}

/// Line join style for stroked corners, as in the SVG specification.
#[derive(Clone, Copy, Debug, PartialEq, Eq, Structural)]
pub enum JoinStyle {
    Miter,
    MiterClip,
    Round,
    Bevel,
}

/// Options for fill tessellation.
#[derive(Clone, Copy, Debug, PartialEq, Eq, Structural)]
pub struct FillConfig {
    /// Maximum allowed distance between the true curve and its flattened
    /// approximation. Must be positive: the engine's flattening never
    /// terminates on a zero step.
    pub tolerance: Coord,
}

impl FillConfig {
    pub open spec fn wf(self) -> bool {
        self.tolerance.wf() && rat_is_pos(self.tolerance@)
    }
}

impl Default for FillConfig {
    /// The engine's default flattening tolerance, one tenth.
    fn default() -> (c: FillConfig)
        ensures
            c.wf(),
            c == (FillConfig { tolerance: Coord { num: 1, den: 10 } }),
    {
        FillConfig { tolerance: Coord { num: 1, den: 10 } }
    }
}

/// Options for stroke tessellation.
#[derive(Clone, Copy, Debug, PartialEq, Eq, Structural)]
pub struct StrokeConfig {
    /// Flattening tolerance; positive, as for `FillConfig`.
    pub tolerance: Coord,
    /// Width of the stroked outline.
    pub line_width: Coord,
    pub start_cap: CapStyle,
    pub end_cap: CapStyle,
    pub line_join: JoinStyle,
    /// Miter limit; at least one, as the SVG specification demands (the
    /// engine refuses smaller values).
    pub miter_limit: Coord,
}

impl StrokeConfig {
    pub open spec fn wf(self) -> bool {
        &&& self.tolerance.wf() && rat_is_pos(self.tolerance@)
        &&& self.line_width.wf()
        &&& self.miter_limit.wf() && rat_ge_one(self.miter_limit@)
    }

    /// The same configuration with another line width.
    pub fn with_line_width(self, line_width: Coord) -> (c: StrokeConfig)
        ensures
            c == (StrokeConfig { line_width, ..self }),
    {
        StrokeConfig { line_width, ..self }
    }
}

impl Default for StrokeConfig {
    /// The engine's defaults: tolerance one tenth, width one, butt caps,
    /// miter joins, miter limit four.
    fn default() -> (c: StrokeConfig)
        ensures
            c.wf(),
            c == (StrokeConfig {
                tolerance: Coord { num: 1, den: 10 },
                line_width: Coord { num: 1, den: 1 },
                start_cap: CapStyle::Butt,
                end_cap: CapStyle::Butt,
                line_join: JoinStyle::Miter,
                miter_limit: Coord { num: 4, den: 1 },
            }),
    {
        StrokeConfig {
            tolerance: Coord { num: 1, den: 10 },
            line_width: Coord { num: 1, den: 1 },
            start_cap: CapStyle::Butt,
            end_cap: CapStyle::Butt,
            line_join: JoinStyle::Miter,
            miter_limit: Coord { num: 4, den: 1 },
        }
    }
}

/// Exactly one of the two variants is active per conversion call; it selects
/// both the engine slot and the tessellation entry point.
#[derive(Clone, Copy, Debug, PartialEq, Eq, Structural)]
pub enum TessellationMode {
    Fill(FillConfig),
    Stroke(StrokeConfig),
}

impl TessellationMode {
    pub open spec fn wf(self) -> bool {
        match self {
            TessellationMode::Fill(c) => c.wf(),
            TessellationMode::Stroke(c) => c.wf(),
        }
    }
}

} // verus!
