//! From queued commands to backend calls.

use vstd::prelude::*;
use crate::backend::{op_models, DrawOp, OpModel};
use crate::color::{Color, Rgba};
use crate::command::{ActionModel, DrawAction};
use crate::scalar::{Point, Scalar};

verus! {

/// The width of a line: the one given, or one where none is given.
pub open spec fn resolved_width(line_width: Option<Scalar>) -> Scalar {
    match line_width {
        Some(width) => width,
        None => Scalar::one(),
    }
}

/// The normalized fill color, where there is one.
pub open spec fn resolved_fill(fill_color: Option<Color>) -> Option<Rgba> {
    match fill_color {
        Some(color) => Some(color.normalized()),
        None => None,
    }
}

/// The strokes along the edges of a polygon: one per vertex, from that vertex
/// to the next, the last one back to the first.
pub open spec fn polygon_edges(vertices: Seq<Point>, color: Rgba, width: Scalar) -> Seq<OpModel> {
    Seq::new(
        vertices.len(),
        |i: int|
            OpModel::Line {
                color,
                width,
                from: vertices[i],
                to: vertices[(i + 1) % (vertices.len() as int)],
            },
    )
}

/// The fill of a polygon: one call where a fill color is given, none
/// otherwise.
pub open spec fn polygon_fill(vertices: Seq<Point>, fill_color: Option<Color>) -> Seq<OpModel> {
    match fill_color {
        Some(color) => seq![OpModel::FilledPolygon { color: color.normalized(), vertices }],
        None => Seq::empty(),
    }
}

/// The backend calls that one command stands for.
pub open spec fn render_action(action: ActionModel) -> Seq<OpModel> {
    match action {
        ActionModel::Clear(color) => seq![OpModel::Clear(color.normalized())],
        ActionModel::Point(location, color) => seq![
            OpModel::FilledSquare {
                color: color.normalized(),
                corner: location,
                side: Scalar::one(),
            },
        ],
        ActionModel::Circle { center, radius, line_color, line_width, fill_color } => seq![
            OpModel::Ellipse {
                border_color: line_color.normalized(),
                border_width: resolved_width(line_width),
                fill_color: resolved_fill(fill_color),
                center,
                radius,
            },
        ],
        ActionModel::Arc { center, radius, line_color, line_width, bounds } => seq![
            OpModel::Arc {
                color: line_color.normalized(),
                width: resolved_width(line_width),
                bounds,
                center,
                radius,
            },
        ],
        ActionModel::Polygon { vertices, line_color, line_width, fill_color } => polygon_fill(
            vertices,
            fill_color,
        ) + polygon_edges(vertices, line_color.normalized(), resolved_width(line_width)),
        ActionModel::Image => Seq::empty(),
        ActionModel::Polyline => Seq::empty(),
        ActionModel::Line => Seq::empty(),
        ActionModel::Text => Seq::empty(),
    }
}

/// The backend calls that a queue stands for: those of its commands, one
/// command after the other in queue order.
pub open spec fn render_queue(queue: Seq<ActionModel>) -> Seq<OpModel>
    decreases queue.len(),
{
    if queue.len() == 0 {
        Seq::empty()
    } else {
        render_queue(queue.drop_last()) + render_action(queue.last())
    }
}

/// The backend calls of one frame: the surface is cleared to opaque black,
/// then the queue is rendered.
pub open spec fn render_frame(queue: Seq<ActionModel>) -> Seq<OpModel> {
    seq![OpModel::Clear(Rgba::black())] + render_queue(queue)
}

/// The number of backend calls that the first `count` commands of a queue
/// stand for: where the calls of the command behind them begin.
pub open spec fn ops_before(queue: Seq<ActionModel>, count: int) -> int {
    render_queue(queue.take(count)).len() as int
}

/// Rendering a queue with one more command at its back gives the calls of
/// the queue, then the calls of that command.
pub proof fn lemma_render_push(queue: Seq<ActionModel>, action: ActionModel)
    ensures
        render_queue(queue.push(action)) == render_queue(queue) + render_action(action),
{
    assert(queue.push(action).drop_last() =~= queue);
}

/// Rendering two queues one after the other gives the calls of the first,
/// then the calls of the second.
pub proof fn lemma_render_concat(first: Seq<ActionModel>, second: Seq<ActionModel>)
    ensures
        render_queue(first + second) == render_queue(first) + render_queue(second),
    decreases second.len(),
{
    if second.len() == 0 {
        assert(first + second =~= first);
        assert(render_queue(first) + render_queue(second) =~= render_queue(first));
    } else {
        lemma_render_concat(first, second.drop_last());
        assert((first + second).drop_last() =~= first + second.drop_last());
        assert((first + second).last() == second.last());
        assert(render_queue(first + second) =~= render_queue(first) + render_queue(second));
    }
}

/// Render order is queue order: the calls of the command at place `index`
/// stand together in the calls of the queue, behind the calls of all
/// commands before it and before the calls of all commands behind it.
pub proof fn lemma_render_order(queue: Seq<ActionModel>, index: int)
    requires
        0 <= index < queue.len(),
    ensures
        0 <= ops_before(queue, index) <= ops_before(queue, index + 1) <= render_queue(queue).len(),
        ops_before(queue, index + 1) == ops_before(queue, index) + render_action(
            queue[index],
        ).len(),
        render_queue(queue).subrange(ops_before(queue, index), ops_before(queue, index + 1))
            == render_action(queue[index]),
{
    let head = queue.take(index);
    let upto = queue.take(index + 1);
    let tail = queue.skip(index + 1);
    assert(upto =~= head.push(queue[index]));
    lemma_render_push(head, queue[index]);
    assert(queue =~= upto + tail);
    lemma_render_concat(upto, tail);
    assert(render_queue(queue).subrange(ops_before(queue, index), ops_before(queue, index + 1))
        =~= render_action(queue[index]));
}

/// A frame begins with the clear to opaque black, whatever is queued, and
/// goes on with the calls of the queue.
pub proof fn lemma_frame_begins_black(queue: Seq<ActionModel>)
    ensures
        render_frame(queue).len() == 1 + render_queue(queue).len(),
        render_frame(queue)[0] == OpModel::Clear(Rgba::black()),
        render_frame(queue).skip(1) == render_queue(queue),
        render_frame(Seq::empty()) == seq![OpModel::Clear(Rgba::black())],
{
    assert(render_frame(queue).skip(1) =~= render_queue(queue));
    assert(render_frame(Seq::empty()) =~= seq![OpModel::Clear(Rgba::black())]);
}

/// A polygon with a fill color is filled first and then stroked, one stroke
/// per vertex in vertex order, the last stroke back to the first vertex.
pub proof fn lemma_filled_polygon(
    vertices: Seq<Point>,
    line_color: Color,
    line_width: Option<Scalar>,
    fill_color: Color,
)
    ensures
        ({
            let ops = render_action(
                ActionModel::Polygon {
                    vertices,
                    line_color,
                    line_width,
                    fill_color: Some(fill_color),
                },
            );
            &&& ops.len() == vertices.len() + 1
            &&& ops[0] == OpModel::FilledPolygon { color: fill_color.normalized(), vertices }
            &&& forall|i: int|
                0 <= i < vertices.len() ==> #[trigger] ops[i + 1] == OpModel::Line {
                    color: line_color.normalized(),
                    width: resolved_width(line_width),
                    from: vertices[i],
                    to: vertices[(i + 1) % (vertices.len() as int)],
                }
        }),
{
}

/// A polygon without a fill color is only stroked, one stroke per vertex.
pub proof fn lemma_unfilled_polygon(
    vertices: Seq<Point>,
    line_color: Color,
    line_width: Option<Scalar>,
)
    ensures
        render_action(
            ActionModel::Polygon { vertices, line_color, line_width, fill_color: None },
        ) == polygon_edges(vertices, line_color.normalized(), resolved_width(line_width)),
        polygon_edges(vertices, line_color.normalized(), resolved_width(line_width)).len()
            == vertices.len(),
{
    assert(render_action(
        ActionModel::Polygon { vertices, line_color, line_width, fill_color: None },
    ) =~= polygon_edges(vertices, line_color.normalized(), resolved_width(line_width)));
}

/// Resolves an optional line width.
fn resolve_width(line_width: Option<Scalar>) -> (width: Scalar)
    ensures
        width == resolved_width(line_width),
{
    match line_width {
        Some(width) => width,
        None => Scalar::unit(),
    }
}

/// Appends the strokes along the edges of a polygon to `ops`.
fn push_edges(vertices: &[Point], color: Rgba, width: Scalar, ops: &mut Vec<DrawOp>)
    ensures
        op_models(final(ops)@) == op_models(old(ops)@) + polygon_edges(vertices@, color, width),
{
    let n = vertices.len();
    let mut i: usize = 0;
    while i < n
        invariant
            n == vertices@.len(),
            i <= n,
            ops@.len() == old(ops)@.len() + i,
            op_models(ops@) == op_models(old(ops)@) + polygon_edges(vertices@, color, width).take(
                i as int,
            ),
        decreases n - i,
    {
        let from = vertices[i];
        let to = vertices[(i + 1) % n];
        let ghost before = ops@;
        ops.push(DrawOp::Line { color, width, from, to });
        proof {
            let edges = polygon_edges(vertices@, color, width);
            assert(edges.take(i + 1) =~= edges.take(i as int).push(edges[i as int]));
            assert(op_models(ops@) =~= op_models(before).push(ops@[before.len() as int]@));
        }
        i += 1;
    }
    proof {
        let edges = polygon_edges(vertices@, color, width);
        assert(edges.take(n as int) =~= edges);
    }
}

/// Appends to `ops` the backend calls that `action` stands for.
pub fn render_into(action: DrawAction, ops: &mut Vec<DrawOp>)
    ensures
        op_models(final(ops)@) == op_models(old(ops)@) + render_action(action@),
{
    let ghost before = ops@;
    match action {
        DrawAction::Clear(color) => {
            ops.push(DrawOp::Clear(color.normalize()));
            assert(op_models(ops@) =~= op_models(before) + render_action(action@));
        },
        DrawAction::Point(location, color) => {
            ops.push(
                DrawOp::FilledSquare {
                    color: color.normalize(),
                    corner: location,
                    side: Scalar::unit(),
                },
            );
            assert(op_models(ops@) =~= op_models(before) + render_action(action@));
        },
        DrawAction::Circle { center, radius, line_color, line_width, fill_color } => {
            let fill = match fill_color {
                Some(color) => Some(color.normalize()),
                None => None,
            };
            ops.push(
                DrawOp::Ellipse {
                    border_color: line_color.normalize(),
                    border_width: resolve_width(line_width),
                    fill_color: fill,
                    center,
                    radius,
                },
            );
            assert(op_models(ops@) =~= op_models(before) + render_action(action@));
        },
        DrawAction::Arc { center, radius, line_color, line_width, bounds } => {
            ops.push(
                DrawOp::Arc {
                    color: line_color.normalize(),
                    width: resolve_width(line_width),
                    bounds,
                    center,
                    radius,
                },
            );
            assert(op_models(ops@) =~= op_models(before) + render_action(action@));
        },
        DrawAction::Polygon { vertices, line_color, line_width, fill_color } => {
            let ghost points = vertices@;
            let mut edges: Vec<DrawOp> = Vec::new();
            push_edges(
                vertices.as_slice(),
                line_color.normalize(),
                resolve_width(line_width),
                &mut edges,
            );
            assert(op_models(edges@) =~= polygon_edges(
                points,
                line_color.normalized(),
                resolved_width(line_width),
            ));
            if let Some(color) = fill_color {
                ops.push(
                    DrawOp::FilledPolygon {
                        color: color.normalize(),
                        vertices: vertices.into_vec(),
                    },
                );
            }
            assert(op_models(ops@) =~= op_models(before) + polygon_fill(points, fill_color));
            let ghost filled = ops@;
            let ghost strokes = edges@;
            ops.append(&mut edges);
            assert(op_models(ops@) =~= op_models(filled) + op_models(strokes));
        },
        _ => {
            assert(op_models(ops@) =~= op_models(before) + render_action(action@));
        },
    }
}

} // verus!
