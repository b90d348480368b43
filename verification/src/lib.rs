//! A verified 2D canvas and the frame around it.
//!
//! A [`canvas::Canvas`] queues drawing commands and turns them, once per
//! frame, into the calls that a graphics backend has to make. A
//! [`frame::Frame`] owns a canvas and decides what the render loop of a
//! window does on each of its events.

use vstd::prelude::*;

pub mod scalar;
pub mod text;
pub mod error;
pub mod color;
pub mod command;
pub mod backend;
pub mod render;
pub mod canvas;
pub mod window;
pub mod frame;

use crate::canvas::CanvasModel;
use crate::error::Error;
use crate::frame::{Frame, FrameModel, FrameState};
use crate::window::{check_size, size_objection, window_config};

verus! {

/// The flag, or its default where it is not given.
pub open spec fn flag_or(flag: Option<bool>, default: bool) -> bool {
    match flag {
        Some(value) => value,
        None => default,
    }
}

/// Creates a frame for a window of the given title and size, or refuses a
/// size with a side that is not positive. A window is resizable and not
/// full screen unless asked otherwise.
pub fn create_frame<H>(
    title: String,
    width: i32,
    height: i32,
    resizable: Option<bool>,
    fullscreen: Option<bool>,
) -> (result: Result<Frame<H>, Error>)
    ensures
        width > 0 && height > 0 ==> (result matches Ok(frame) && frame@ == (FrameModel::<H> {
            config: window_config(
                title,
                width as u32,
                height as u32,
                flag_or(resizable, true),
                flag_or(fullscreen, false),
            ),
            canvas: CanvasModel { queue: Seq::empty(), size: (0, 0) },
            draw_handler: None,
            event_handler: None,
            state: FrameState::Created,
        })),
        !(width > 0 && height > 0) ==> (result matches Err(Error::Validation(message)) && Some(
            message@,
        ) == size_objection(width as int, height as int)),
{
    let resizable = match resizable {
        Some(value) => value,
        None => true,
    };
    let fullscreen = match fullscreen {
        Some(value) => value,
        None => false,
    };
    match check_size(width, height) {
        Ok(()) => Ok(frame::create_frame(title, width as u32, height as u32, resizable, fullscreen)),
        Err(error) => Err(error),
    }
}

} // verus!
