//! Folding draw commands into a tessellation-ready path.
//!
//! A shape contour arrives as an ordered sequence of draw commands with
//! twips coordinates. Building the path converts every coordinate to exact
//! pixel units and appends one segment per command; a closed contour gets a
//! final closing segment back to the start of the subpath.

use vstd::prelude::*;

verus! {

use crate::rational::Rational;
use crate::units::{pixels_of, Twips};

/// A point in render pixels, held exactly.
#[derive(Clone, Copy, PartialEq, Eq, Structural, Debug)]
pub struct Point {
    pub x: Rational,
    pub y: Rational,
}

/// One instruction of a shape contour, in twips. For a curve, `(x1, y1)` is
/// the quadratic control point and `(x2, y2)` the endpoint.
#[derive(Clone, Copy, PartialEq, Eq, Structural, Debug)]
pub enum DrawCommand {
    MoveTo { x: Twips, y: Twips },
    LineTo { x: Twips, y: Twips },
    CurveTo { x1: Twips, y1: Twips, x2: Twips, y2: Twips },
}

/// One segment of a built path, in exact pixel units.
#[derive(Clone, Copy, PartialEq, Eq, Structural, Debug)]
pub enum PathSegment {
    MoveTo { to: Point },
    LineTo { to: Point },
    QuadraticTo { ctrl: Point, to: Point },
    Close,
}

/// The geometric result of folding a command sequence: segments in order,
/// ready for tessellation.
#[derive(Clone, Debug)]
pub struct Path {
    pub segments: Vec<PathSegment>,
}

/// The pixel-unit point of a twips coordinate pair.
pub open spec fn point_of(x: Twips, y: Twips) -> Point {
    Point { x: pixels_of(x), y: pixels_of(y) }
}

/// The segment a single draw command folds to.
pub open spec fn segment_of(c: DrawCommand) -> PathSegment {
    match c {
        DrawCommand::MoveTo { x, y } => PathSegment::MoveTo { to: point_of(x, y) },
        DrawCommand::LineTo { x, y } => PathSegment::LineTo { to: point_of(x, y) },
        DrawCommand::CurveTo { x1, y1, x2, y2 } => PathSegment::QuadraticTo {
            ctrl: point_of(x1, y1),
            to: point_of(x2, y2),
        },
    }
}

/// Converts a twips coordinate pair into a point in render pixels, dividing
/// each component by twenty, exactly.
pub fn convert_point(x: Twips, y: Twips) -> (p: Point)
    ensures
        p == point_of(x, y),
        p.x.wf() && p.x.is_frac(x.raw as int, 20),
        p.y.wf() && p.y.is_frac(y.raw as int, 20),
{
    Point { x: x.to_pixels(), y: y.to_pixels() }
}

/// Folds a command sequence into a path.
///
/// Each command becomes exactly one segment, in order, with its coordinates
/// converted to pixel units. When `is_closed` is set and the sequence is
/// non-empty, one closing segment is appended after the last command. An
/// empty sequence yields an empty path whatever the flag says. A move
/// appearing mid-sequence is passed through unchanged: it starts a new
/// subpath, and whether that is meaningful is the shape model's decision.
pub fn build_path(commands: &Vec<DrawCommand>, is_closed: bool) -> (p: Path)
    ensures
        commands@.len() == 0 ==> p.segments@.len() == 0,
        is_closed && commands@.len() > 0 ==> {
            &&& p.segments@.len() == commands@.len() + 1
            &&& p.segments@.last() == PathSegment::Close
        },
        !(is_closed && commands@.len() > 0) ==> p.segments@.len() == commands@.len(),
        forall|i: int|
            0 <= i < commands@.len() ==> p.segments@[i] == segment_of(commands@[i]),
{
    let mut segments: Vec<PathSegment> = Vec::new();
    let n: usize = commands.len();
    let mut idx: usize = 0;
    while idx < n
        invariant
            n == commands@.len(),
            idx <= n,
            segments@.len() == idx,
            forall|i: int| 0 <= i < idx ==> segments@[i] == segment_of(commands@[i]),
        decreases n - idx,
    {
        let segment = match commands[idx] {
            DrawCommand::MoveTo { x, y } => PathSegment::MoveTo { to: convert_point(x, y) },
            DrawCommand::LineTo { x, y } => PathSegment::LineTo { to: convert_point(x, y) },
            DrawCommand::CurveTo { x1, y1, x2, y2 } => PathSegment::QuadraticTo {
                ctrl: convert_point(x1, y1),
                to: convert_point(x2, y2),
            },
        };
        segments.push(segment);
        idx += 1;
    }
    if is_closed && n > 0 {
        segments.push(PathSegment::Close);
    }
    Path { segments }
}

} // verus!
