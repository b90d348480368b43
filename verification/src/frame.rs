//! The frame: a window, its canvas, and the loop that renders one frame per
//! tick.
//!
//! The frame decides; whoever owns the platform window acts. It hands the
//! frame each event of the platform loop and performs the action that the
//! frame answers with.

use vstd::prelude::*;
use vstd::string::*;
use crate::backend::{op_models, DrawOp, OpModel};
use crate::canvas::{Canvas, CanvasModel};
use crate::error::Error;
use crate::render::render_frame;
use crate::window::{
    check_resolution, check_size, mode_is_fullscreen, position_or_origin, resolution_objection,
    size_objection, window_config, VideoMode, WindowCommand, WindowConfig, WindowMode,
};

verus! {

/// Where a frame stands in its life. `Running` notes whether the draw
/// handler was asked for and has not yet returned.
#[derive(Clone, Copy, Debug, PartialEq, Eq, Structural)]
pub enum FrameState {
    Created,
    Running { in_callback: bool },
    Stopped,
}

/// What the platform loop reports to the frame.
#[derive(Clone, Copy, Debug, PartialEq, Eq, Structural)]
pub enum LoopEvent {
    /// The window is ready to be drawn; its size at this moment.
    Render { width: u32, height: u32 },
    /// Any other event of the window.
    Other,
    /// The window should close: there are no more events.
    Closed,
    /// The draw handler that the frame asked for has returned.
    HandlerReturned { failed: bool },
}

/// What the frame asks of the loop in answer to an event.
#[derive(Debug, PartialEq, Eq)]
pub enum LoopAction {
    /// Call the draw handler with the canvas, then report its return.
    CallDrawHandler,
    /// Perform these calls on the drawing context and present the frame.
    Draw(Vec<DrawOp>),
    /// Nothing to do: wait for the next event.
    Continue,
    /// Leave the loop: the frame has stopped.
    Finish,
    /// Leave the loop with the error of the draw handler.
    Abort,
}

/// What a [`LoopAction`] says, with the calls as a sequence.
pub enum LoopActionModel {
    CallDrawHandler,
    Draw(Seq<OpModel>),
    Continue,
    Finish,
    Abort,
}

impl View for LoopAction {
    type V = LoopActionModel;

    open spec fn view(&self) -> LoopActionModel {
        match self {
            LoopAction::CallDrawHandler => LoopActionModel::CallDrawHandler,
            LoopAction::Draw(ops) => LoopActionModel::Draw(op_models(ops@)),
            LoopAction::Continue => LoopActionModel::Continue,
            LoopAction::Finish => LoopActionModel::Finish,
            LoopAction::Abort => LoopActionModel::Abort,
        }
    }
}

/// What a frame holds.
pub struct FrameModel<H> {
    pub config: WindowConfig,
    pub canvas: CanvasModel,
    pub draw_handler: Option<H>,
    pub event_handler: Option<H>,
    pub state: FrameState,
}

/// The message for a second start.
pub open spec fn started_text() -> Seq<char> {
    "The frame can only be started once"@
}

impl<H> FrameModel<H> {
    /// The frame with its state replaced.
    pub open spec fn in_state(self, state: FrameState) -> FrameModel<H> {
        FrameModel { state, ..self }
    }

    /// The frame with the size of its canvas replaced.
    pub open spec fn sized(self, size: (u32, u32)) -> FrameModel<H> {
        FrameModel { canvas: CanvasModel { queue: self.canvas.queue, size }, ..self }
    }

    /// The frame after its canvas was rendered, and the action that hands
    /// out the calls.
    pub open spec fn drawn(self) -> (FrameModel<H>, LoopActionModel) {
        (
            FrameModel {
                canvas: CanvasModel { queue: Seq::empty(), size: self.canvas.size },
                ..self
            },
            LoopActionModel::Draw(render_frame(self.canvas.queue)),
        )
    }

    /// One step of the loop: the frame after the event, and the action it
    /// answers with.
    ///
    /// While the frame runs and waits for no handler, a render tick records
    /// the size of the window in the canvas; then the draw handler is asked
    /// for where one is set, and the canvas is rendered at once where none
    /// is. When the handler has returned, the canvas is rendered, or the
    /// frame stops where the handler failed. The end of the events stops
    /// the frame. Every other event is passed over. A frame that does not
    /// run answers every event by ending the loop.
    pub open spec fn step(self, event: LoopEvent) -> (FrameModel<H>, LoopActionModel) {
        match self.state {
            FrameState::Running { in_callback: false } => match event {
                LoopEvent::Render { width, height } => if self.draw_handler is Some {
                    (
                        self.sized((width, height)).in_state(
                            FrameState::Running { in_callback: true },
                        ),
                        LoopActionModel::CallDrawHandler,
                    )
                } else {
                    self.sized((width, height)).drawn()
                },
                LoopEvent::Closed => (self.in_state(FrameState::Stopped), LoopActionModel::Finish),
                LoopEvent::Other => (self, LoopActionModel::Continue),
                LoopEvent::HandlerReturned { .. } => (self, LoopActionModel::Continue),
            },
            FrameState::Running { in_callback: true } => match event {
                LoopEvent::HandlerReturned { failed } => if failed {
                    (self.in_state(FrameState::Stopped), LoopActionModel::Abort)
                } else {
                    self.in_state(FrameState::Running { in_callback: false }).drawn()
                },
                LoopEvent::Closed => (self.in_state(FrameState::Stopped), LoopActionModel::Finish),
                LoopEvent::Render { .. } => (self, LoopActionModel::Continue),
                LoopEvent::Other => (self, LoopActionModel::Continue),
            },
            FrameState::Created => (self, LoopActionModel::Finish),
            FrameState::Stopped => (self, LoopActionModel::Finish),
        }
    }
}

/// The life of a frame runs one way. No event gives a frame its start:
/// one that was not started stays so. No event brings a frame back: one
/// that runs goes on or stops, and one that has stopped stays as it is and
/// ends the loop. No event touches the configuration or the handlers, and
/// whenever the canvas is drawn its queue is left empty.
pub proof fn lemma_step_runs_one_way<H>(frame: FrameModel<H>, event: LoopEvent)
    ensures
        frame.step(event).0.config == frame.config,
        frame.step(event).0.draw_handler == frame.draw_handler,
        frame.step(event).0.event_handler == frame.event_handler,
        frame.state is Created ==> frame.step(event) == (frame, LoopActionModel::Finish),
        frame.state is Stopped ==> frame.step(event) == (frame, LoopActionModel::Finish),
        frame.state is Running ==> !(frame.step(event).0.state is Created),
        frame.step(event).1 is Draw ==> frame.step(event).0.canvas.queue.len() == 0
            && frame.step(event).0.state == (FrameState::Running { in_callback: false }),
        frame.step(event).1 is Abort ==> frame.step(event).0.state is Stopped,
        frame.state is Running && event is Closed ==> frame.step(event).0.state is Stopped,
{
}

/// A frame with a drawable canvas. `H` is the kind of handle by which the
/// embedder's handlers are held.
pub struct Frame<H> {
    config: WindowConfig,
    canvas: Canvas,
    draw_handler: Option<H>,
    event_handler: Option<H>,
    state: FrameState,
}

impl<H> View for Frame<H> {
    type V = FrameModel<H>;

    closed spec fn view(&self) -> FrameModel<H> {
        FrameModel {
            config: self.config,
            canvas: self.canvas@,
            draw_handler: self.draw_handler,
            event_handler: self.event_handler,
            state: self.state,
        }
    }
}

impl<H> Frame<H> {
    /// Starts the frame. A frame starts once: a second start is refused and
    /// changes nothing.
    pub fn start(&mut self) -> (result: Result<(), Error>)
        ensures
            old(self)@.state == FrameState::Created ==> result is Ok && final(self)@ == old(
                self,
            )@.in_state(FrameState::Running { in_callback: false }),
            old(self)@.state != FrameState::Created ==> final(self)@ == old(self)@ && (
            result matches Err(Error::State(message)) && message@ == started_text()),
    {
        match self.state {
            FrameState::Created => {
                self.state = FrameState::Running { in_callback: false };
                Ok(())
            },
            _ => Err(Error::State(String::from_str("The frame can only be started once"))),
        }
    }

    /// Takes one event of the platform loop and answers with what the loop
    /// is to do next.
    pub fn on_event(&mut self, event: LoopEvent) -> (action: LoopAction)
        ensures
            (final(self)@, action@) == old(self)@.step(event),
    {
        match self.state {
            FrameState::Running { in_callback: false } => match event {
                LoopEvent::Render { width, height } => {
                    self.canvas.update_size((width, height));
                    if self.draw_handler.is_some() {
                        self.state = FrameState::Running { in_callback: true };
                        LoopAction::CallDrawHandler
                    } else {
                        LoopAction::Draw(self.canvas.draw_canvas())
                    }
                },
                LoopEvent::Closed => {
                    self.state = FrameState::Stopped;
                    LoopAction::Finish
                },
                _ => LoopAction::Continue,
            },
            FrameState::Running { in_callback: true } => match event {
                LoopEvent::HandlerReturned { failed } => {
                    if failed {
                        self.state = FrameState::Stopped;
                        LoopAction::Abort
                    } else {
                        self.state = FrameState::Running { in_callback: false };
                        LoopAction::Draw(self.canvas.draw_canvas())
                    }
                },
                LoopEvent::Closed => {
                    self.state = FrameState::Stopped;
                    LoopAction::Finish
                },
                _ => LoopAction::Continue,
            },
            _ => LoopAction::Finish,
        }
    }

    /// Where the frame stands in its life.
    pub fn state(&self) -> (state: FrameState)
        ensures
            state == self@.state,
    {
        self.state
    }

    /// How the window of this frame is to be created.
    pub fn config(&self) -> (config: &WindowConfig)
        ensures
            *config == self@.config,
    {
        &self.config
    }

    /// The canvas of this frame.
    pub fn canvas(&self) -> (canvas: &Canvas)
        ensures
            canvas@ == self@.canvas,
    {
        &self.canvas
    }

    /// The canvas of this frame, to queue commands on.
    pub fn canvas_mut(&mut self) -> (canvas: &mut Canvas)
        ensures
            canvas@ == old(self)@.canvas,
            final(self)@ == (FrameModel { canvas: final(canvas)@, ..old(self)@ }),
    {
        &mut self.canvas
    }

    /// Sets the draw handler and hands back the one it replaces.
    pub fn set_draw_handler(&mut self, handler: H) -> (replaced: Option<H>)
        ensures
            replaced == old(self)@.draw_handler,
            final(self)@ == (FrameModel { draw_handler: Some(handler), ..old(self)@ }),
    {
        let mut held = Some(handler);
        std::mem::swap(&mut self.draw_handler, &mut held);
        held
    }

    /// Sets the event handler and hands back the one it replaces. The
    /// handler is held and never called.
    pub fn set_event_handler(&mut self, handler: H) -> (replaced: Option<H>)
        ensures
            replaced == old(self)@.event_handler,
            final(self)@ == (FrameModel { event_handler: Some(handler), ..old(self)@ }),
    {
        let mut held = Some(handler);
        std::mem::swap(&mut self.event_handler, &mut held);
        held
    }

    /// The draw handler, where one is set.
    pub fn draw_handler(&self) -> (handler: Option<&H>)
        ensures
            handler == match self@.draw_handler {
                Some(held) => Some(&held),
                None => None,
            },
    {
        self.draw_handler.as_ref()
    }

    /// The event handler, where one is set.
    pub fn event_handler(&self) -> (handler: Option<&H>)
        ensures
            handler == match self@.event_handler {
                Some(held) => Some(&held),
                None => None,
            },
    {
        self.event_handler.as_ref()
    }

    /// The handlers that the frame holds: the draw handler, then the event
    /// handler, each where it is set.
    pub fn handlers(&self) -> (held: Vec<&H>)
        ensures
            held@ == match self@.draw_handler {
                Some(draw) => seq![&draw],
                None => Seq::<&H>::empty(),
            } + match self@.event_handler {
                Some(event) => seq![&event],
                None => Seq::<&H>::empty(),
            },
    {
        let mut held: Vec<&H> = Vec::new();
        if let Some(handler) = &self.draw_handler {
            held.push(handler);
        }
        if let Some(handler) = &self.event_handler {
            held.push(handler);
        }
        assert(held@ =~= match self@.draw_handler {
            Some(draw) => seq![&draw],
            None => Seq::<&H>::empty(),
        } + match self@.event_handler {
            Some(event) => seq![&event],
            None => Seq::<&H>::empty(),
        });
        held
    }

    /// Lets go of both handlers and hands them out, the draw handler first,
    /// for the embedder to release.
    pub fn clear_handlers(&mut self) -> (released: (Option<H>, Option<H>))
        ensures
            released == (old(self)@.draw_handler, old(self)@.event_handler),
            final(self)@ == (FrameModel { draw_handler: None, event_handler: None, ..old(self)@ }),
    {
        let mut draw: Option<H> = None;
        let mut event: Option<H> = None;
        std::mem::swap(&mut self.draw_handler, &mut draw);
        std::mem::swap(&mut self.event_handler, &mut event);
        (draw, event)
    }

    /// Shows the window.
    pub fn show(&self) -> (command: WindowCommand)
        ensures
            command == WindowCommand::Show,
    {
        WindowCommand::Show
    }

    /// Hides the window.
    pub fn hide_window(&self) -> (command: WindowCommand)
        ensures
            command == WindowCommand::Hide,
    {
        WindowCommand::Hide
    }

    /// Asks the window to close.
    pub fn close(&self) -> (command: WindowCommand)
        ensures
            command == WindowCommand::Close,
    {
        WindowCommand::Close
    }

    /// Sets the title of the window.
    pub fn set_title(&self, title: String) -> (command: WindowCommand)
        ensures
            command == WindowCommand::SetTitle(title),
    {
        WindowCommand::SetTitle(title)
    }

    /// Sets the size of the window, or refuses a size with a side that is
    /// not positive. A refusal asks nothing of the window.
    pub fn set_size(&self, size: (i32, i32)) -> (result: Result<WindowCommand, Error>)
        ensures
            size.0 > 0 && size.1 > 0 ==> result == Ok::<WindowCommand, Error>(
                WindowCommand::SetSize { width: size.0 as u32, height: size.1 as u32 },
            ),
            !(size.0 > 0 && size.1 > 0) ==> (result matches Err(Error::Validation(message))
                && Some(message@) == size_objection(size.0 as int, size.1 as int)),
    {
        match check_size(size.0, size.1) {
            Ok(()) => Ok(WindowCommand::SetSize { width: size.0 as u32, height: size.1 as u32 }),
            Err(error) => Err(error),
        }
    }

    /// The position of the window, from what the platform reports: the
    /// origin where it reports none.
    pub fn get_position(&self, reported: Option<(i32, i32)>) -> (position: (i32, i32))
        ensures
            position == match reported {
                Some(place) => place,
                None => (0i32, 0i32),
            },
    {
        position_or_origin(reported)
    }

    /// Moves the window. Every position is accepted.
    pub fn set_position(&self, pos: (i32, i32)) -> (command: WindowCommand)
        ensures
            command == (WindowCommand::SetPosition { x: pos.0, y: pos.1 }),
    {
        WindowCommand::SetPosition { x: pos.0, y: pos.1 }
    }

    /// Gives the window the input focus.
    pub fn focus(&self) -> (command: WindowCommand)
        ensures
            command == WindowCommand::Focus,
    {
        WindowCommand::Focus
    }

    /// Maximizes the window.
    pub fn maximize(&self) -> (command: WindowCommand)
        ensures
            command == WindowCommand::Maximize,
    {
        WindowCommand::Maximize
    }

    /// Minimizes the window.
    pub fn minimize(&self) -> (command: WindowCommand)
        ensures
            command == WindowCommand::Minimize,
    {
        WindowCommand::Minimize
    }

    /// Restores the window from being minimized or maximized.
    pub fn restore(&self) -> (command: WindowCommand)
        ensures
            command == WindowCommand::Restore,
    {
        WindowCommand::Restore
    }

    /// Whether the window covers the screen, from the mode that the
    /// platform reports.
    pub fn is_fullscreen(&self, mode: WindowMode) -> (fullscreen: bool)
        ensures
            fullscreen <==> mode == WindowMode::FullScreen,
    {
        mode_is_fullscreen(mode)
    }

    /// Puts the window on the primary monitor, full screen, or refuses a
    /// resolution with a side that is not positive. `monitor` is the video
    /// mode that the monitor is in. The window takes the resolution asked
    /// for, or the size of that mode where none is asked for. The refresh
    /// rate is that of the monitor.
    pub fn set_fullscreen(&self, resolution: Option<(i32, i32)>, monitor: VideoMode) -> (result:
        Result<WindowCommand, Error>)
        ensures
            resolution_objection(resolution) is None ==> result == Ok::<WindowCommand, Error>(
                WindowCommand::SetFullscreen {
                    x: 0,
                    y: 0,
                    width: fullscreen_size(resolution, monitor).0,
                    height: fullscreen_size(resolution, monitor).1,
                    refresh_rate: Some(monitor.refresh_rate),
                },
            ),
            resolution_objection(resolution) is Some ==> (result matches Err(
                Error::Validation(message),
            ) && Some(message@) == resolution_objection(resolution)),
    {
        match check_resolution(resolution) {
            Ok(()) => {
                let size = match resolution {
                    Some((width, height)) => (width as u32, height as u32),
                    None => (monitor.width, monitor.height),
                };
                Ok(
                    WindowCommand::SetFullscreen {
                        x: 0,
                        y: 0,
                        width: size.0,
                        height: size.1,
                        refresh_rate: Some(monitor.refresh_rate),
                    },
                )
            },
            Err(error) => Err(error),
        }
    }
}

/// The size of a full-screen window: the resolution where one is asked for,
/// the size of the monitor's mode otherwise.
pub open spec fn fullscreen_size(resolution: Option<(i32, i32)>, monitor: VideoMode) -> (u32, u32) {
    match resolution {
        Some((width, height)) => (width as u32, height as u32),
        None => (monitor.width, monitor.height),
    }
}

/// A frame for a window of the given title and size: not started, with an
/// empty canvas and no handlers.
pub fn create_frame<H>(
    title: String,
    width: u32,
    height: u32,
    resizable: bool,
    fullscreen: bool,
) -> (frame: Frame<H>)
    ensures
        frame@ == (FrameModel::<H> {
            config: window_config(title, width, height, resizable, fullscreen),
            canvas: CanvasModel { queue: Seq::empty(), size: (0, 0) },
            draw_handler: None,
            event_handler: None,
            state: FrameState::Created,
        }),
{
    Frame {
        config: WindowConfig::new(title, width, height, resizable, fullscreen),
        canvas: Canvas::new(),
        draw_handler: None,
        event_handler: None,
        state: FrameState::Created,
    }
}

} // verus!
