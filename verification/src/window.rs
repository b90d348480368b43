//! The platform window as the frame sees it: how it is to be created, what
//! may be asked of it, and the checks on sizes.

use vstd::prelude::*;
use vstd::string::*;
use crate::error::Error;
use crate::text::{int_digits, push_int};

verus! {

/// Samples per pixel that every window is created with.
pub const SAMPLES: u8 = 4;

/// Major version of the graphics API that every window is created with.
pub const OPENGL_MAJOR: u8 = 3;

/// Minor version of the graphics API that every window is created with.
pub const OPENGL_MINOR: u8 = 3;

/// How a window is to be created.
#[derive(Debug, PartialEq, Eq)]
pub struct WindowConfig {
    pub title: String,
    pub width: u32,
    pub height: u32,
    pub resizable: bool,
    pub fullscreen: bool,
    pub opengl: (u8, u8),
    pub samples: u8,
    pub vsync: bool,
    pub srgb: bool,
}

/// The video mode of a monitor.
#[derive(Clone, Copy, Debug, PartialEq, Eq, Structural)]
pub struct VideoMode {
    pub width: u32,
    pub height: u32,
    pub refresh_rate: u32,
}

impl VideoMode {
    /// The video mode of the given size whose refresh rate is given in
    /// thousandths of a hertz; the rate is kept in whole hertz, rounded
    /// down.
    pub fn from_millihertz(width: u32, height: u32, millihertz: u32) -> (mode: VideoMode)
        ensures
            mode == (VideoMode { width, height, refresh_rate: millihertz / 1000 }),
    {
        VideoMode { width, height, refresh_rate: millihertz / 1000 }
    }
}

/// Whether a video mode is the one asked for: it has the size asked for,
/// and the refresh rate where one is asked for.
pub open spec fn mode_fits(
    mode: VideoMode,
    width: u32,
    height: u32,
    refresh_rate: Option<u32>,
) -> bool {
    &&& mode.width == width
    &&& mode.height == height
    &&& (refresh_rate matches Some(rate) ==> mode.refresh_rate == rate)
}

/// How a window is made to cover a monitor that offers only its own video
/// modes.
#[derive(Clone, Copy, Debug, PartialEq, Eq, Structural)]
pub enum FullscreenChoice {
    /// Switch the monitor to the mode at this place among those it offers.
    Exclusive { mode: usize },
    /// Leave the monitor in the mode it is in and cover it without a border.
    Borderless,
}

/// Chooses among the video modes that a monitor offers: the first one that
/// is the mode asked for, or a borderless window where the monitor offers
/// no such mode.
pub fn choose_fullscreen(
    modes: &Vec<VideoMode>,
    width: u32,
    height: u32,
    refresh_rate: Option<u32>,
) -> (choice: FullscreenChoice)
    ensures
        choice matches FullscreenChoice::Exclusive { mode } ==> {
            &&& mode < modes@.len()
            &&& mode_fits(modes@[mode as int], width, height, refresh_rate)
            &&& forall|i: int|
                0 <= i < mode ==> !mode_fits(#[trigger] modes@[i], width, height, refresh_rate)
        },
        choice is Borderless <==> forall|i: int|
            0 <= i < modes@.len() ==> !mode_fits(
                #[trigger] modes@[i],
                width,
                height,
                refresh_rate,
            ),
{
    let mut i: usize = 0;
    while i < modes.len()
        invariant
            i <= modes@.len(),
            forall|j: int|
                0 <= j < i ==> !mode_fits(#[trigger] modes@[j], width, height, refresh_rate),
        decreases modes@.len() - i,
    {
        let mode = modes[i];
        let rate_fits = match refresh_rate {
            Some(rate) => mode.refresh_rate == rate,
            None => true,
        };
        if mode.width == width && mode.height == height && rate_fits {
            return FullscreenChoice::Exclusive { mode: i };
        }
        i += 1;
    }
    FullscreenChoice::Borderless
}

/// The mode a window is in.
#[derive(Clone, Copy, Debug, PartialEq, Eq, Structural)]
pub enum WindowMode {
    Windowed,
    FullScreen,
}

/// One request to the platform window.
#[derive(Debug, PartialEq, Eq)]
pub enum WindowCommand {
    Show,
    Hide,
    /// Mark the window as one that should close.
    Close,
    SetTitle(String),
    /// Resize the window, then swap its buffers.
    SetSize { width: u32, height: u32 },
    SetPosition { x: i32, y: i32 },
    Focus,
    Maximize,
    /// Reduce the window to its icon.
    Minimize,
    Restore,
    /// Put the window on the primary monitor, full screen, at the given
    /// place, size and refresh rate.
    SetFullscreen { x: i32, y: i32, width: u32, height: u32, refresh_rate: Option<u32> },
}

/// The message for a width that is not positive.
pub open spec fn width_text(reported: int) -> Seq<char> {
    "Width must be > 0, got "@ + int_digits(reported)
}

/// The message for a height that is not positive.
pub open spec fn height_text(reported: int) -> Seq<char> {
    "Height must be > 0, got "@ + int_digits(reported)
}

/// The message for a resolution whose width is not positive.
pub open spec fn resolution_width_text(reported: int) -> Seq<char> {
    "Resolution width must be > 0, got "@ + int_digits(reported)
}

/// The message for a resolution whose height is not positive.
pub open spec fn resolution_height_text(reported: int) -> Seq<char> {
    "Resolution height must be > 0, got "@ + int_digits(reported)
}

/// What a check of a window size gives: nothing to object to where both
/// sides are positive; else the message on the width where the width is not
/// positive, and the message on the height otherwise. Both messages report
/// the width.
pub open spec fn size_objection(width: int, height: int) -> Option<Seq<char>> {
    if width <= 0 {
        Some(width_text(width))
    } else if height <= 0 {
        Some(height_text(width))
    } else {
        None
    }
}

/// What a check of a full-screen resolution gives: nothing to object to
/// where none is given or both sides are positive; else the message on the
/// side that is not positive, the width first.
pub open spec fn resolution_objection(resolution: Option<(i32, i32)>) -> Option<Seq<char>> {
    match resolution {
        None => None,
        Some((width, height)) => if width <= 0 {
            Some(resolution_width_text(width as int))
        } else if height <= 0 {
            Some(resolution_height_text(height as int))
        } else {
            None
        },
    }
}

/// Whether `result` reports exactly the given objection, as a validation
/// error, or success where there is none.
pub open spec fn reports(result: Result<(), Error>, objection: Option<Seq<char>>) -> bool {
    match objection {
        None => result is Ok,
        Some(text) => result matches Err(Error::Validation(message)) && message@ == text,
    }
}

/// A validation error whose message is `prefix` and then `reported` in
/// decimal.
fn objection(prefix: &str, reported: i32) -> (error: Error)
    ensures
        error matches Error::Validation(message) && message@ == prefix@ + int_digits(
            reported as int,
        ),
{
    let mut message = String::from_str(prefix);
    push_int(&mut message, reported as i64);
    Error::Validation(message)
}

/// Checks that both sides of a window size are positive.
pub fn check_size(width: i32, height: i32) -> (result: Result<(), Error>)
    ensures
        reports(result, size_objection(width as int, height as int)),
        result is Ok <==> width > 0 && height > 0,
{
    if width <= 0 {
        return Err(objection("Width must be > 0, got ", width));
    }
    if height <= 0 {
        return Err(objection("Height must be > 0, got ", width));
    }
    Ok(())
}

/// Checks that both sides of a full-screen resolution, where one is given,
/// are positive.
pub fn check_resolution(resolution: Option<(i32, i32)>) -> (result: Result<(), Error>)
    ensures
        reports(result, resolution_objection(resolution)),
        result is Ok <==> (resolution matches Some((width, height)) ==> width > 0 && height > 0),
{
    match resolution {
        None => Ok(()),
        Some((width, height)) => {
            if width <= 0 {
                return Err(objection("Resolution width must be > 0, got ", width));
            }
            if height <= 0 {
                return Err(objection("Resolution height must be > 0, got ", height));
            }
            Ok(())
        },
    }
}

/// The configuration of a new window: the given title, size and flags, and
/// the settings that every window shares.
pub open spec fn window_config(
    title: String,
    width: u32,
    height: u32,
    resizable: bool,
    fullscreen: bool,
) -> WindowConfig {
    WindowConfig {
        title,
        width,
        height,
        resizable,
        fullscreen,
        opengl: (3, 3),
        samples: 4,
        vsync: true,
        srgb: true,
    }
}

impl WindowConfig {
    /// The configuration of a new window.
    pub fn new(title: String, width: u32, height: u32, resizable: bool, fullscreen: bool) -> (out:
        WindowConfig)
        ensures
            out == window_config(title, width, height, resizable, fullscreen),
    {
        WindowConfig {
            title,
            width,
            height,
            resizable,
            fullscreen,
            opengl: (OPENGL_MAJOR, OPENGL_MINOR),
            samples: SAMPLES,
            vsync: true,
            srgb: true,
        }
    }
}

/// The position of a window: the one the platform reports, or the origin
/// where it reports none.
pub fn position_or_origin(reported: Option<(i32, i32)>) -> (position: (i32, i32))
    ensures
        position == match reported {
            Some(place) => place,
            None => (0i32, 0i32),
        },
{
    match reported {
        Some(place) => place,
        None => (0, 0),
    }
}

/// Whether a window in the given mode covers the screen.
pub fn mode_is_fullscreen(mode: WindowMode) -> (fullscreen: bool)
    ensures
        fullscreen <==> mode == WindowMode::FullScreen,
{
    match mode {
        WindowMode::FullScreen => true,
        WindowMode::Windowed => false,
    }
}

} // verus!
