//! The calls that a 2D graphics backend must offer, as values.
//!
//! Rendering turns the queue into a list of these; whoever owns the
//! graphics context performs them in order.

use vstd::prelude::*;
use crate::color::Rgba;
use crate::scalar::{Point, Scalar};

verus! {

/// One call on the backend's immediate-mode drawing context.
#[derive(Debug, PartialEq, Eq)]
pub enum DrawOp {
    /// Fill the whole surface.
    Clear(Rgba),
    /// Fill the square with the given top-left corner and side.
    FilledSquare { color: Rgba, corner: Point, side: Scalar },
    /// Draw the circle around `center` with a border, and fill it where a
    /// fill color is given.
    Ellipse {
        border_color: Rgba,
        border_width: Scalar,
        fill_color: Option<Rgba>,
        center: Point,
        radius: Scalar,
    },
    /// Stroke the part of the circle around `center` that `bounds` names.
    Arc { color: Rgba, width: Scalar, bounds: (Scalar, Scalar), center: Point, radius: Scalar },
    /// Fill the closed polygon with the given vertices.
    FilledPolygon { color: Rgba, vertices: Vec<Point> },
    /// Stroke the segment between two points.
    Line { color: Rgba, width: Scalar, from: Point, to: Point },
}

/// What a [`DrawOp`] says, with the vertices as a sequence.
pub enum OpModel {
    Clear(Rgba),
    FilledSquare { color: Rgba, corner: Point, side: Scalar },
    Ellipse {
        border_color: Rgba,
        border_width: Scalar,
        fill_color: Option<Rgba>,
        center: Point,
        radius: Scalar,
    },
    Arc { color: Rgba, width: Scalar, bounds: (Scalar, Scalar), center: Point, radius: Scalar },
    FilledPolygon { color: Rgba, vertices: Seq<Point> },
    Line { color: Rgba, width: Scalar, from: Point, to: Point },
}

impl View for DrawOp {
    type V = OpModel;

    open spec fn view(&self) -> OpModel {
        match *self {
            DrawOp::Clear(color) => OpModel::Clear(color),
            DrawOp::FilledSquare { color, corner, side } => OpModel::FilledSquare {
                color,
                corner,
                side,
            },
            DrawOp::Ellipse { border_color, border_width, fill_color, center, radius } =>
                OpModel::Ellipse { border_color, border_width, fill_color, center, radius },
            DrawOp::Arc { color, width, bounds, center, radius } => OpModel::Arc {
                color,
                width,
                bounds,
                center,
                radius,
            },
            DrawOp::FilledPolygon { color, vertices } => OpModel::FilledPolygon {
                color,
                vertices: vertices@,
            },
            DrawOp::Line { color, width, from, to } => OpModel::Line { color, width, from, to },
        }
    }
}

/// The models of a sequence of calls, in the same order.
pub open spec fn op_models(ops: Seq<DrawOp>) -> Seq<OpModel> {
    ops.map_values(|op: DrawOp| op@)
}

} // verus!
