//! The drawing commands that a canvas queues.

use vstd::prelude::*;
use crate::color::Color;
use crate::scalar::{Point, Scalar};

verus! {

/// The vertices of a polygon, in order. Consecutive vertices are joined by
/// an edge, and the last vertex is joined to the first.
#[derive(Debug, PartialEq, Eq)]
pub struct Poly(Vec<Point>);

impl View for Poly {
    type V = Seq<Point>;

    closed spec fn view(&self) -> Seq<Point> {
        self.0@
    }
}

impl Poly {
    /// A vertex list with the given vertices.
    pub fn new(vertices: Vec<Point>) -> (out: Poly)
        ensures
            out@ == vertices@,
    {
        Poly(vertices)
    }

    /// The number of vertices.
    pub fn len(&self) -> (n: usize)
        ensures
            n == self@.len(),
    {
        self.0.len()
    }

    /// The vertices, in order.
    pub fn as_slice(&self) -> (vertices: &[Point])
        ensures
            vertices@ == self@,
    {
        self.0.as_slice()
    }

    /// Gives up the vertices.
    pub fn into_vec(self) -> (vertices: Vec<Point>)
        ensures
            vertices@ == self@,
    {
        self.0
    }
}

/// One queued drawing instruction. A line width that is absent stays absent
/// in the queue; it is resolved when the command is rendered.
#[derive(Debug, PartialEq, Eq)]
pub enum DrawAction {
    Clear(Color),
    Point(Point, Color),
    Image,
    Circle {
        center: Point,
        radius: Scalar,
        line_color: Color,
        line_width: Option<Scalar>,
        fill_color: Option<Color>,
    },
    Arc {
        center: Point,
        radius: Scalar,
        line_color: Color,
        line_width: Option<Scalar>,
        bounds: (Scalar, Scalar),
    },
    Polygon {
        vertices: Poly,
        line_color: Color,
        line_width: Option<Scalar>,
        fill_color: Option<Color>,
    },
    Polyline,
    Line,
    Text,
}

/// What a [`DrawAction`] says, with the vertices as a sequence.
pub enum ActionModel {
    Clear(Color),
    Point(Point, Color),
    Image,
    Circle {
        center: Point,
        radius: Scalar,
        line_color: Color,
        line_width: Option<Scalar>,
        fill_color: Option<Color>,
    },
    Arc {
        center: Point,
        radius: Scalar,
        line_color: Color,
        line_width: Option<Scalar>,
        bounds: (Scalar, Scalar),
    },
    Polygon {
        vertices: Seq<Point>,
        line_color: Color,
        line_width: Option<Scalar>,
        fill_color: Option<Color>,
    },
    Polyline,
    Line,
    Text,
}

impl View for DrawAction {
    type V = ActionModel;

    open spec fn view(&self) -> ActionModel {
        match *self {
            DrawAction::Clear(color) => ActionModel::Clear(color),
            DrawAction::Point(location, color) => ActionModel::Point(location, color),
            DrawAction::Image => ActionModel::Image,
            DrawAction::Circle { center, radius, line_color, line_width, fill_color } =>
                ActionModel::Circle { center, radius, line_color, line_width, fill_color },
            DrawAction::Arc { center, radius, line_color, line_width, bounds } =>
                ActionModel::Arc { center, radius, line_color, line_width, bounds },
            DrawAction::Polygon { vertices, line_color, line_width, fill_color } =>
                ActionModel::Polygon { vertices: vertices@, line_color, line_width, fill_color },
            DrawAction::Polyline => ActionModel::Polyline,
            DrawAction::Line => ActionModel::Line,
            DrawAction::Text => ActionModel::Text,
        }
    }
}

/// The models of a sequence of commands, in the same order.
pub open spec fn action_models(actions: Seq<DrawAction>) -> Seq<ActionModel> {
    actions.map_values(|action: DrawAction| action@)
}

} // verus!
