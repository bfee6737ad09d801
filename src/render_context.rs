//! The values that describe drawing operations.

use vstd::prelude::*;

verus! {

/// A fill rule for resolving winding numbers.
#[derive(Clone, Copy, PartialEq, Eq, Debug, Structural)]
pub enum FillRule {
    /// Fill everything with a non-zero winding number.
    NonZero,
    /// Fill everything with an odd winding number.
    EvenOdd,
}

/// A point with integer coordinates in user space.
#[derive(Clone, Copy, PartialEq, Eq, Debug, Structural)]
pub struct Point {
    pub x: i64,
    pub y: i64,
}

/// A point in polar form: at distance `radius` from `center`, at the angle
/// `step * pi / divisions` radians.
#[derive(Clone, Copy, PartialEq, Eq, Debug, Structural)]
pub struct PolarPoint {
    pub center: Point,
    pub radius: u32,
    pub step: usize,
    pub divisions: usize,
}

/// One element of a path whose points have integer coordinates.
#[derive(Clone, Copy, PartialEq, Eq, Debug, Structural)]
pub enum PathEl {
    MoveTo(Point),
    LineTo(Point),
    QuadTo(Point, Point),
    CurveTo(Point, Point, Point),
    ClosePath,
}

/// One element of a polygonal path whose vertices are given in polar form.
#[derive(Clone, Copy, PartialEq, Eq, Debug, Structural)]
pub enum PolarPathEl {
    MoveTo(PolarPoint),
    LineTo(PolarPoint),
    ClosePath,
}

/// A rotation by `num / den` radians.
#[derive(Clone, Copy, PartialEq, Eq, Debug, Structural)]
pub struct Rotation {
    pub num: i64,
    pub den: u64,
}

/// One call on a drawing context.
///
/// A context keeps a current brush, font and text layout: `SolidBrush`,
/// `NewFont` and `NewTextLayout` replace them, and the drawing operations use
/// them. `Save` and `Restore` delimit a scope: the transform and clip in force
/// at `Save` are in force again after the matching `Restore`.
#[derive(Clone, PartialEq, Debug)]
pub enum DrawOp {
    /// Fill the whole surface with the opaque color `rgb`.
    Clear { rgb: u32 },
    /// Make a solid brush of color `rgba` the current brush.
    SolidBrush { rgba: u32 },
    /// Stroke the segment from `p0` to `p1`.
    StrokeLine { p0: Point, p1: Point, width: u32 },
    /// Stroke a path.
    StrokePath { path: Vec<PathEl>, width: u32 },
    /// Fill a path under a fill rule.
    FillPath { path: Vec<PathEl>, rule: FillRule },
    /// Build a font by name and size and make it the current font.
    NewFont { name: &'static str, size: u32 },
    /// Lay out `text` in the current font and make it the current layout.
    NewTextLayout { text: &'static str },
    /// Draw the current layout with its origin at `origin`.
    DrawText { origin: Point },
    /// Stroke a horizontal segment from `start`, as long as the current
    /// layout is wide.
    StrokeUnderline { start: Point, width: u32 },
    /// Open a scope that saves the transform and the clip.
    Save,
    /// Compose the current transform with a rotation.
    Rotate { rotation: Rotation },
    /// Close the innermost scope, bringing back its transform and clip.
    Restore,
    /// Intersect the clip with a polygonal path under a fill rule.
    Clip { outline: Vec<PolarPathEl>, rule: FillRule },
}

} // verus!
