//! The canvas: a queue of drawing commands and the size of the surface
//! they are drawn on.

use std::collections::VecDeque;
use vstd::prelude::*;
use vstd::string::*;
use crate::backend::{op_models, DrawOp, OpModel};
use crate::color::{Color, Rgba};
use crate::command::{action_models, ActionModel, DrawAction, Poly};
use crate::error::Error;
use crate::render::{lemma_render_concat, render_frame, render_into, render_queue};
use crate::scalar::{Point, Scalar};
use crate::text::{nat_digits, push_nat};

verus! {

/// The least number of vertices of a polygon.
pub const MIN_VERTICES: usize = 3;

/// Whether a command may stand in a queue: it has a renderer, and a polygon
/// has at least three vertices.
pub open spec fn queueable(action: ActionModel) -> bool {
    match action {
        ActionModel::Clear(_) => true,
        ActionModel::Point(_, _) => true,
        ActionModel::Circle { .. } => true,
        ActionModel::Arc { .. } => true,
        ActionModel::Polygon { vertices, .. } => vertices.len() >= 3,
        ActionModel::Image => false,
        ActionModel::Polyline => false,
        ActionModel::Line => false,
        ActionModel::Text => false,
    }
}

/// What a canvas holds: the queued commands, oldest first, and the size of
/// the surface as (width, height).
pub struct CanvasModel {
    pub queue: Seq<ActionModel>,
    pub size: (u32, u32),
}

impl CanvasModel {
    /// Every queued command may stand in a queue.
    pub open spec fn wf(self) -> bool {
        forall|i: int| 0 <= i < self.queue.len() ==> queueable(#[trigger] self.queue[i])
    }

    /// The canvas after one more command was queued.
    pub open spec fn enqueue(self, action: ActionModel) -> CanvasModel {
        CanvasModel { queue: self.queue.push(action), size: self.size }
    }

    /// The canvas after the given commands were queued one by one, the
    /// first of them first.
    pub open spec fn enqueue_all(self, actions: Seq<ActionModel>) -> CanvasModel
        decreases actions.len(),
    {
        if actions.len() == 0 {
            self
        } else {
            self.enqueue_all(actions.drop_last()).enqueue(actions.last())
        }
    }
}

/// Enqueue order is render order: after any number of enqueues the queue
/// holds what it held, then the new commands in the order of the calls, and
/// a frame rendered from it makes the calls of the old queue, then those of
/// the new commands in that order. The size is untouched.
pub proof fn lemma_enqueue_order(canvas: CanvasModel, actions: Seq<ActionModel>)
    ensures
        canvas.enqueue_all(actions).queue == canvas.queue + actions,
        canvas.enqueue_all(actions).size == canvas.size,
        render_frame(canvas.enqueue_all(actions).queue) == render_frame(canvas.queue)
            + render_queue(actions),
    decreases actions.len(),
{
    if actions.len() == 0 {
        assert(canvas.queue + actions =~= canvas.queue);
    } else {
        lemma_enqueue_order(canvas, actions.drop_last());
        assert(canvas.enqueue_all(actions).queue =~= canvas.queue + actions);
    }
    lemma_render_concat(canvas.queue, actions);
    assert(render_frame(canvas.queue + actions) =~= render_frame(canvas.queue) + render_queue(
        actions,
    ));
}

/// The message for a polygon with too few vertices.
pub open spec fn too_few_vertices_text(count: nat) -> Seq<char> {
    "Polygon must have 3 or more vertices, got "@ + nat_digits(count)
}

/// The message for a request to draw an image.
pub open spec fn draw_image_text() -> Seq<char> {
    "draw_image is not yet implemented"@
}

/// The drawable area of a frame.
pub struct Canvas {
    draw_queue: VecDeque<DrawAction>,
    size: (u32, u32),
}

impl View for Canvas {
    type V = CanvasModel;

    closed spec fn view(&self) -> CanvasModel {
        CanvasModel { queue: action_models(self.draw_queue@), size: self.size }
    }
}

impl Canvas {
    #[verifier::type_invariant]
    spec fn queue_is_valid(&self) -> bool {
        self@.wf()
    }

    /// An empty canvas of size zero.
    pub fn new() -> (out: Canvas)
        ensures
            out@ == (CanvasModel { queue: Seq::empty(), size: (0, 0) }),
            out@.wf(),
    {
        let out = Canvas { draw_queue: VecDeque::new(), size: (0, 0) };
        assert(out@.queue =~= Seq::empty());
        out
    }

    /// Records the size of the surface.
    pub fn update_size(&mut self, size: (u32, u32))
        ensures
            final(self)@ == (CanvasModel { queue: old(self)@.queue, size }),
            final(self)@.wf(),
    {
        proof {
            use_type_invariant(&*self);
        }
        self.size = size;
    }

    /// The size of the surface as last recorded.
    pub fn get_size(&self) -> (size: (u32, u32))
        ensures
            size == self@.size,
    {
        self.size
    }

    /// Appends a command that has passed the checks of its kind.
    fn enqueue(&mut self, action: DrawAction)
        requires
            queueable(action@),
        ensures
            final(self)@ == old(self)@.enqueue(action@),
            final(self)@.wf(),
    {
        proof {
            use_type_invariant(&*self);
        }
        let mut queue: VecDeque<DrawAction> = VecDeque::new();
        std::mem::swap(&mut self.draw_queue, &mut queue);
        queue.push_back(action);
        assert(action_models(queue@) =~= old(self)@.queue.push(action@));
        std::mem::swap(&mut self.draw_queue, &mut queue);
    }

    /// Queues a fill of the whole surface.
    pub fn clear(&mut self, color: Color)
        ensures
            final(self)@ == old(self)@.enqueue(ActionModel::Clear(color)),
            final(self)@.wf(),
    {
        self.enqueue(DrawAction::Clear(color));
    }

    /// Queues a point.
    pub fn draw_point(&mut self, point: Point, color: Color)
        ensures
            final(self)@ == old(self)@.enqueue(ActionModel::Point(point, color)),
            final(self)@.wf(),
    {
        self.enqueue(DrawAction::Point(point, color));
    }

    /// Refuses: images have no renderer.
    pub fn draw_image(&mut self) -> (result: Result<(), Error>)
        ensures
            result matches Err(Error::NotImplemented(message)) && message@ == draw_image_text(),
            final(self)@ == old(self)@,
    {
        Err(Error::NotImplemented(String::from_str("draw_image is not yet implemented")))
    }

    /// Queues a circle. The radius is not checked.
    pub fn draw_circle(
        &mut self,
        center: Point,
        radius: Scalar,
        line_color: Color,
        line_width: Option<Scalar>,
        fill_color: Option<Color>,
    )
        ensures
            final(self)@ == old(self)@.enqueue(
                ActionModel::Circle { center, radius, line_color, line_width, fill_color },
            ),
            final(self)@.wf(),
    {
        self.enqueue(DrawAction::Circle { center, radius, line_color, line_width, fill_color });
    }

    /// Queues an arc. `bounds` is the start angle and the angular extent, in
    /// radians.
    pub fn draw_arc(
        &mut self,
        center: Point,
        radius: Scalar,
        bounds: (Scalar, Scalar),
        line_color: Color,
        line_width: Option<Scalar>,
    )
        ensures
            final(self)@ == old(self)@.enqueue(
                ActionModel::Arc { center, radius, line_color, line_width, bounds },
            ),
            final(self)@.wf(),
    {
        self.enqueue(DrawAction::Arc { center, radius, line_color, line_width, bounds });
    }

    /// Queues a polygon, or refuses one with fewer than three vertices.
    pub fn draw_polygon(
        &mut self,
        vertices: Poly,
        line_color: Color,
        line_width: Option<Scalar>,
        fill_color: Option<Color>,
    ) -> (result: Result<(), Error>)
        ensures
            vertices@.len() >= 3 ==> result is Ok && final(self)@ == old(self)@.enqueue(
                ActionModel::Polygon { vertices: vertices@, line_color, line_width, fill_color },
            ),
            vertices@.len() < 3 ==> final(self)@ == old(self)@ && (result matches Err(
                Error::Validation(message),
            ) && message@ == too_few_vertices_text(vertices@.len())),
            final(self)@.wf(),
    {
        proof {
            use_type_invariant(&*self);
        }
        let len = vertices.len();
        if len < MIN_VERTICES {
            let mut message = String::from_str("Polygon must have 3 or more vertices, got ");
            push_nat(&mut message, len as u64);
            return Err(Error::Validation(message));
        }
        self.enqueue(DrawAction::Polygon { vertices, line_color, line_width, fill_color });
        Ok(())
    }

    /// Renders one frame: hands out the backend calls for the queue and
    /// leaves the queue empty. The first call clears the surface to opaque
    /// black, whatever the queue holds.
    pub fn draw_canvas(&mut self) -> (ops: Vec<DrawOp>)
        ensures
            final(self)@ == (CanvasModel { queue: Seq::empty(), size: old(self)@.size }),
            final(self)@.wf(),
            op_models(ops@) == render_frame(old(self)@.queue),
            ops@.len() >= 1,
            ops@[0]@ == OpModel::Clear(Rgba::black()),
    {
        proof {
            use_type_invariant(&*self);
        }
        let mut queue: VecDeque<DrawAction> = VecDeque::new();
        std::mem::swap(&mut self.draw_queue, &mut queue);
        assert(self@.queue =~= Seq::empty());
        let mut ops: Vec<DrawOp> = Vec::new();
        ops.push(DrawOp::Clear(Rgba::opaque_black()));
        let ghost queued = queue@;
        let ghost mut done: int = 0;
        assert(queued.take(0) =~= Seq::empty());
        assert(queued.skip(0) =~= queued);
        assert(op_models(ops@) =~= seq![OpModel::Clear(Rgba::black())]);
        loop
            invariant
                0 <= done <= queued.len(),
                queue@ == queued.skip(done),
                ops@.len() >= 1,
                ops@[0]@ == OpModel::Clear(Rgba::black()),
                op_models(ops@) == seq![OpModel::Clear(Rgba::black())] + render_queue(
                    action_models(queued.take(done)),
                ),
            ensures
                done == queued.len(),
            decreases queued.len() - done,
        {
            let ghost before = ops@;
            match queue.pop_front() {
                Some(action) => {
                    render_into(action, &mut ops);
                    proof {
                        let consumed = action_models(queued.take(done + 1));
                        assert(queued.take(done + 1) =~= queued.take(done).push(queued[done]));
                        assert(consumed.drop_last() =~= action_models(queued.take(done)));
                        assert(consumed.last() == action@);
                        assert(queue@ =~= queued.skip(done + 1));
                        assert(op_models(ops@) =~= seq![OpModel::Clear(Rgba::black())]
                            + render_queue(consumed));
                        assert(op_models(ops@)[0] == op_models(before)[0]);
                        done = done + 1;
                    }
                },
                None => {
                    break ;
                },
            }
        }
        proof {
            assert(queued.take(done) =~= queued);
        }
        ops
    }
}

} // verus!
