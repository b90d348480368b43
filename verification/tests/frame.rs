use pygui::backend::DrawOp;
use pygui::color::{Alpha, Color, Rgba};
use pygui::create_frame;
use pygui::error::Error;
use pygui::frame::{Frame, FrameState, LoopAction, LoopEvent};
use pygui::scalar::{Point, Scalar};
use pygui::window::{
    check_resolution, check_size, choose_fullscreen, mode_is_fullscreen, position_or_origin,
    FullscreenChoice, VideoMode, WindowCommand, WindowConfig, WindowMode,
};

fn s(value: f64) -> Scalar {
    Scalar::from_bits(value.to_bits())
}

fn p(x: f64, y: f64) -> Point {
    (s(x), s(y))
}

fn opaque(red: u8, green: u8, blue: u8) -> Rgba {
    Rgba { red, green, blue, alpha: Alpha::from_bits(1.0f32.to_bits()) }
}

fn black_clear() -> DrawOp {
    DrawOp::Clear(opaque(0, 0, 0))
}

fn frame() -> Frame<&'static str> {
    create_frame(String::from("demo"), 640, 480, None, None).unwrap()
}

fn validation(result: Result<WindowCommand, Error>) -> String {
    match result {
        Err(Error::Validation(message)) => message,
        other => panic!("expected a validation error, got {:?}", other),
    }
}

const MONITOR: VideoMode = VideoMode { width: 1920, height: 1080, refresh_rate: 60 };

#[test]
fn create_frame_fills_in_the_defaults() {
    let frame = frame();
    assert_eq!(
        *frame.config(),
        WindowConfig {
            title: String::from("demo"),
            width: 640,
            height: 480,
            resizable: true,
            fullscreen: false,
            opengl: (3, 3),
            samples: 4,
            vsync: true,
            srgb: true,
        }
    );
    assert_eq!(frame.state(), FrameState::Created);
    assert_eq!(frame.draw_handler(), None);
    assert_eq!(frame.event_handler(), None);
    assert_eq!(frame.canvas().get_size(), (0, 0));
}

#[test]
fn create_frame_takes_given_flags() {
    let frame: Frame<u8> =
        create_frame(String::from("t"), 1, 1, Some(false), Some(true)).unwrap();
    assert!(!frame.config().resizable);
    assert!(frame.config().fullscreen);
    assert_eq!((frame.config().width, frame.config().height), (1, 1));
}

#[test]
fn create_frame_refuses_sizes_that_are_not_positive() {
    let refused = |width: i32, height: i32| -> String {
        match create_frame::<u8>(String::from("t"), width, height, None, None) {
            Err(Error::Validation(message)) => message,
            Ok(_) => panic!("expected a validation error"),
            Err(other) => panic!("expected a validation error, got {:?}", other),
        }
    };
    assert_eq!(refused(0, 10), "Width must be > 0, got 0");
    assert_eq!(refused(-3, 10), "Width must be > 0, got -3");
    assert_eq!(refused(-3, -4), "Width must be > 0, got -3");
    assert_eq!(refused(10, 0), "Height must be > 0, got 10");
    assert_eq!(refused(10, -7), "Height must be > 0, got 10");
    assert_eq!(refused(i32::MIN, 1), "Width must be > 0, got -2147483648");
}

#[test]
fn direct_create_frame_takes_all_values() {
    let frame: Frame<u8> = pygui::frame::create_frame(String::from("x"), 0, 7, false, true);
    assert_eq!(
        *frame.config(),
        WindowConfig::new(String::from("x"), 0, 7, false, true)
    );
    assert_eq!(frame.state(), FrameState::Created);
}

#[test]
fn start_runs_the_frame() {
    let mut frame = frame();
    assert_eq!(frame.start(), Ok(()));
    assert_eq!(frame.state(), FrameState::Running { in_callback: false });
}

#[test]
fn start_twice_fails_and_leaves_the_loop_running() {
    let mut frame = frame();
    frame.start().unwrap();
    match frame.start() {
        Err(Error::State(message)) => assert_eq!(message, "The frame can only be started once"),
        other => panic!("expected a state error, got {:?}", other),
    }
    assert_eq!(frame.state(), FrameState::Running { in_callback: false });
    assert_eq!(
        frame.on_event(LoopEvent::Render { width: 2, height: 3 }),
        LoopAction::Draw(vec![black_clear()])
    );
}

#[test]
fn start_in_the_middle_of_a_tick_fails_and_changes_nothing() {
    let mut frame = frame();
    frame.set_draw_handler("draw");
    frame.start().unwrap();
    assert_eq!(
        frame.on_event(LoopEvent::Render { width: 2, height: 3 }),
        LoopAction::CallDrawHandler
    );
    assert!(matches!(frame.start(), Err(Error::State(_))));
    assert_eq!(frame.state(), FrameState::Running { in_callback: true });
    assert_eq!(
        frame.on_event(LoopEvent::HandlerReturned { failed: false }),
        LoopAction::Draw(vec![black_clear()])
    );
}

#[test]
fn start_after_stop_fails() {
    let mut frame = frame();
    frame.start().unwrap();
    assert_eq!(frame.on_event(LoopEvent::Closed), LoopAction::Finish);
    assert_eq!(frame.state(), FrameState::Stopped);
    assert!(matches!(frame.start(), Err(Error::State(_))));
    assert_eq!(frame.state(), FrameState::Stopped);
}

#[test]
fn render_tick_without_handler_draws_at_once() {
    let mut frame = frame();
    frame.start().unwrap();
    frame.canvas_mut().clear(Color::new(1, 2, 3, None));
    let action = frame.on_event(LoopEvent::Render { width: 800, height: 600 });
    assert_eq!(action, LoopAction::Draw(vec![black_clear(), DrawOp::Clear(opaque(1, 2, 3))]));
    assert_eq!(frame.canvas().get_size(), (800, 600));
    assert_eq!(frame.state(), FrameState::Running { in_callback: false });
}

#[test]
fn render_tick_with_handler_asks_for_it_then_draws_what_it_queued() {
    let mut frame = frame();
    assert_eq!(frame.set_draw_handler("draw"), None);
    frame.start().unwrap();
    let action = frame.on_event(LoopEvent::Render { width: 100, height: 50 });
    assert_eq!(action, LoopAction::CallDrawHandler);
    assert_eq!(frame.state(), FrameState::Running { in_callback: true });
    assert_eq!(frame.canvas().get_size(), (100, 50));
    frame.canvas_mut().draw_point(p(1.0, 2.0), Color::new(0, 255, 0, None));
    let action = frame.on_event(LoopEvent::HandlerReturned { failed: false });
    assert_eq!(
        action,
        LoopAction::Draw(vec![
            black_clear(),
            DrawOp::FilledSquare { color: opaque(0, 255, 0), corner: p(1.0, 2.0), side: s(1.0) },
        ])
    );
    assert_eq!(frame.state(), FrameState::Running { in_callback: false });
    assert_eq!(
        frame.on_event(LoopEvent::Render { width: 100, height: 50 }),
        LoopAction::CallDrawHandler
    );
    assert_eq!(
        frame.on_event(LoopEvent::HandlerReturned { failed: false }),
        LoopAction::Draw(vec![black_clear()])
    );
}

#[test]
fn failing_handler_aborts_the_loop() {
    let mut frame = frame();
    frame.set_draw_handler("draw");
    frame.start().unwrap();
    frame.on_event(LoopEvent::Render { width: 1, height: 1 });
    frame.canvas_mut().clear(Color::new(5, 5, 5, None));
    assert_eq!(frame.on_event(LoopEvent::HandlerReturned { failed: true }), LoopAction::Abort);
    assert_eq!(frame.state(), FrameState::Stopped);
    assert_eq!(frame.on_event(LoopEvent::Render { width: 9, height: 9 }), LoopAction::Finish);
    assert_eq!(frame.canvas().get_size(), (1, 1));
}

#[test]
fn other_events_are_passed_over() {
    let mut frame = frame();
    frame.set_event_handler("events");
    frame.start().unwrap();
    frame.canvas_mut().clear(Color::new(5, 5, 5, None));
    assert_eq!(frame.on_event(LoopEvent::Other), LoopAction::Continue);
    assert_eq!(frame.on_event(LoopEvent::HandlerReturned { failed: true }), LoopAction::Continue);
    assert_eq!(frame.state(), FrameState::Running { in_callback: false });
    assert_eq!(frame.canvas().get_size(), (0, 0));
    assert_eq!(
        frame.on_event(LoopEvent::Render { width: 3, height: 3 }),
        LoopAction::Draw(vec![black_clear(), DrawOp::Clear(opaque(5, 5, 5))])
    );
}

#[test]
fn events_during_the_handler_are_passed_over() {
    let mut frame = frame();
    frame.set_draw_handler("draw");
    frame.start().unwrap();
    frame.on_event(LoopEvent::Render { width: 1, height: 1 });
    assert_eq!(frame.on_event(LoopEvent::Other), LoopAction::Continue);
    assert_eq!(frame.on_event(LoopEvent::Render { width: 7, height: 7 }), LoopAction::Continue);
    assert_eq!(frame.canvas().get_size(), (1, 1));
    assert_eq!(frame.state(), FrameState::Running { in_callback: true });
    assert_eq!(frame.on_event(LoopEvent::Closed), LoopAction::Finish);
    assert_eq!(frame.state(), FrameState::Stopped);
}

#[test]
fn closed_window_stops_the_frame() {
    let mut frame = frame();
    frame.start().unwrap();
    assert_eq!(frame.on_event(LoopEvent::Closed), LoopAction::Finish);
    assert_eq!(frame.state(), FrameState::Stopped);
    assert_eq!(frame.on_event(LoopEvent::Other), LoopAction::Finish);
    assert_eq!(frame.on_event(LoopEvent::Closed), LoopAction::Finish);
}

#[test]
fn frame_that_was_not_started_ends_the_loop() {
    let mut frame = frame();
    frame.canvas_mut().clear(Color::new(5, 5, 5, None));
    assert_eq!(frame.on_event(LoopEvent::Render { width: 4, height: 4 }), LoopAction::Finish);
    assert_eq!(frame.on_event(LoopEvent::Other), LoopAction::Finish);
    assert_eq!(frame.state(), FrameState::Created);
    assert_eq!(frame.canvas().get_size(), (0, 0));
    frame.start().unwrap();
    assert_eq!(
        frame.on_event(LoopEvent::Render { width: 4, height: 4 }),
        LoopAction::Draw(vec![black_clear(), DrawOp::Clear(opaque(5, 5, 5))])
    );
}

#[test]
fn handlers_are_replaced_and_handed_back() {
    let mut frame = frame();
    assert_eq!(frame.set_draw_handler("first"), None);
    assert_eq!(frame.draw_handler(), Some(&"first"));
    assert_eq!(frame.set_draw_handler("second"), Some("first"));
    assert_eq!(frame.draw_handler(), Some(&"second"));
    assert_eq!(frame.event_handler(), None);
    assert_eq!(frame.set_event_handler("events"), None);
    assert_eq!(frame.set_event_handler("more"), Some("events"));
    assert_eq!(frame.event_handler(), Some(&"more"));
    assert_eq!(frame.draw_handler(), Some(&"second"));
}

#[test]
fn held_handlers_are_listed_draw_first() {
    let mut frame = frame();
    assert_eq!(frame.handlers(), Vec::<&&str>::new());
    frame.set_event_handler("events");
    assert_eq!(frame.handlers(), vec![&"events"]);
    frame.set_draw_handler("draw");
    assert_eq!(frame.handlers(), vec![&"draw", &"events"]);
}

#[test]
fn clear_handlers_releases_both() {
    let mut frame = frame();
    frame.set_draw_handler("draw");
    frame.set_event_handler("events");
    assert_eq!(frame.clear_handlers(), (Some("draw"), Some("events")));
    assert_eq!(frame.draw_handler(), None);
    assert_eq!(frame.event_handler(), None);
    assert_eq!(frame.clear_handlers(), (None, None));
    frame.start().unwrap();
    assert_eq!(
        frame.on_event(LoopEvent::Render { width: 1, height: 1 }),
        LoopAction::Draw(vec![black_clear()])
    );
}

#[test]
fn set_size_with_positive_sides_resizes() {
    let frame = frame();
    assert_eq!(frame.set_size((800, 600)), Ok(WindowCommand::SetSize { width: 800, height: 600 }));
    assert_eq!(frame.set_size((1, 1)), Ok(WindowCommand::SetSize { width: 1, height: 1 }));
    assert_eq!(
        frame.set_size((i32::MAX, 5)),
        Ok(WindowCommand::SetSize { width: 2_147_483_647, height: 5 })
    );
}

#[test]
fn set_size_refuses_sides_that_are_not_positive() {
    let frame = frame();
    assert_eq!(validation(frame.set_size((0, 600))), "Width must be > 0, got 0");
    assert_eq!(validation(frame.set_size((-800, 600))), "Width must be > 0, got -800");
    assert_eq!(validation(frame.set_size((800, 0))), "Height must be > 0, got 800");
    assert_eq!(validation(frame.set_size((800, -600))), "Height must be > 0, got 800");
    assert_eq!(validation(frame.set_size((-1, -1))), "Width must be > 0, got -1");
}

#[test]
fn set_position_accepts_every_position() {
    let frame = frame();
    assert_eq!(frame.set_position((10, 20)), WindowCommand::SetPosition { x: 10, y: 20 });
    assert_eq!(frame.set_position((-5, 0)), WindowCommand::SetPosition { x: -5, y: 0 });
    assert_eq!(
        frame.set_position((i32::MIN, i32::MAX)),
        WindowCommand::SetPosition { x: i32::MIN, y: i32::MAX }
    );
}

#[test]
fn get_position_defaults_to_the_origin() {
    let frame = frame();
    assert_eq!(frame.get_position(Some((12, -7))), (12, -7));
    assert_eq!(frame.get_position(None), (0, 0));
    assert_eq!(position_or_origin(None), (0, 0));
    assert_eq!(position_or_origin(Some((1, 2))), (1, 2));
}

#[test]
fn plain_requests_name_the_platform_call() {
    let frame = frame();
    assert_eq!(frame.show(), WindowCommand::Show);
    assert_eq!(frame.hide_window(), WindowCommand::Hide);
    assert_eq!(frame.close(), WindowCommand::Close);
    assert_eq!(frame.focus(), WindowCommand::Focus);
    assert_eq!(frame.maximize(), WindowCommand::Maximize);
    assert_eq!(frame.minimize(), WindowCommand::Minimize);
    assert_eq!(frame.restore(), WindowCommand::Restore);
    assert_eq!(
        frame.set_title(String::from("new title")),
        WindowCommand::SetTitle(String::from("new title"))
    );
}

#[test]
fn is_fullscreen_reads_the_mode() {
    let frame = frame();
    assert!(frame.is_fullscreen(WindowMode::FullScreen));
    assert!(!frame.is_fullscreen(WindowMode::Windowed));
    assert!(mode_is_fullscreen(WindowMode::FullScreen));
    assert!(!mode_is_fullscreen(WindowMode::Windowed));
}

#[test]
fn set_fullscreen_without_resolution_takes_the_monitor_mode() {
    let frame = frame();
    assert_eq!(
        frame.set_fullscreen(None, MONITOR),
        Ok(WindowCommand::SetFullscreen {
            x: 0,
            y: 0,
            width: 1920,
            height: 1080,
            refresh_rate: Some(60),
        })
    );
}

#[test]
fn set_fullscreen_with_resolution_takes_that_resolution() {
    let frame = frame();
    assert_eq!(
        frame.set_fullscreen(Some((1280, 720)), MONITOR),
        Ok(WindowCommand::SetFullscreen {
            x: 0,
            y: 0,
            width: 1280,
            height: 720,
            refresh_rate: Some(60),
        })
    );
    assert_eq!(
        frame.set_fullscreen(Some((1, i32::MAX)), MONITOR),
        Ok(WindowCommand::SetFullscreen {
            x: 0,
            y: 0,
            width: 1,
            height: 2_147_483_647,
            refresh_rate: Some(60),
        })
    );
}

#[test]
fn set_fullscreen_refuses_resolutions_that_are_not_positive() {
    let frame = frame();
    assert_eq!(
        validation(frame.set_fullscreen(Some((0, 720)), MONITOR)),
        "Resolution width must be > 0, got 0"
    );
    assert_eq!(
        validation(frame.set_fullscreen(Some((-2, -3)), MONITOR)),
        "Resolution width must be > 0, got -2"
    );
    assert_eq!(
        validation(frame.set_fullscreen(Some((1280, 0)), MONITOR)),
        "Resolution height must be > 0, got 0"
    );
    assert_eq!(
        validation(frame.set_fullscreen(Some((1280, -720)), MONITOR)),
        "Resolution height must be > 0, got -720"
    );
}

#[test]
fn size_checks_report_what_they_refuse() {
    assert_eq!(check_size(1, 1), Ok(()));
    assert_eq!(
        check_size(0, 0),
        Err(Error::Validation(String::from("Width must be > 0, got 0")))
    );
    assert_eq!(
        check_size(6, i32::MIN),
        Err(Error::Validation(String::from("Height must be > 0, got 6")))
    );
    assert_eq!(check_resolution(None), Ok(()));
    assert_eq!(check_resolution(Some((1, 1))), Ok(()));
    assert_eq!(
        check_resolution(Some((1, i32::MIN))),
        Err(Error::Validation(String::from("Resolution height must be > 0, got -2147483648")))
    );
}

#[test]
fn refused_requests_leave_the_frame_as_it_was() {
    let mut frame = frame();
    frame.start().unwrap();
    frame.canvas_mut().clear(Color::new(1, 1, 1, None));
    assert!(frame.set_size((0, 0)).is_err());
    assert!(frame.set_fullscreen(Some((0, 0)), MONITOR).is_err());
    assert_eq!(frame.state(), FrameState::Running { in_callback: false });
    assert_eq!(frame.config().width, 640);
    assert_eq!(
        frame.on_event(LoopEvent::Render { width: 2, height: 2 }),
        LoopAction::Draw(vec![black_clear(), DrawOp::Clear(opaque(1, 1, 1))])
    );
}

#[test]
fn video_mode_keeps_whole_hertz() {
    assert_eq!(
        VideoMode::from_millihertz(800, 600, 59_940),
        VideoMode { width: 800, height: 600, refresh_rate: 59 }
    );
    assert_eq!(VideoMode::from_millihertz(1, 2, 60_000).refresh_rate, 60);
    assert_eq!(VideoMode::from_millihertz(1, 2, 999).refresh_rate, 0);
    assert_eq!(VideoMode::from_millihertz(1, 2, u32::MAX).refresh_rate, 4_294_967);
}

#[test]
fn fullscreen_takes_the_first_mode_that_fits() {
    let modes = vec![
        VideoMode { width: 800, height: 600, refresh_rate: 60 },
        VideoMode { width: 1280, height: 720, refresh_rate: 50 },
        VideoMode { width: 1280, height: 720, refresh_rate: 60 },
        VideoMode { width: 1280, height: 720, refresh_rate: 60 },
        VideoMode { width: 720, height: 1280, refresh_rate: 60 },
    ];
    assert_eq!(
        choose_fullscreen(&modes, 1280, 720, Some(60)),
        FullscreenChoice::Exclusive { mode: 2 }
    );
    assert_eq!(
        choose_fullscreen(&modes, 1280, 720, None),
        FullscreenChoice::Exclusive { mode: 1 }
    );
    assert_eq!(
        choose_fullscreen(&modes, 800, 600, Some(60)),
        FullscreenChoice::Exclusive { mode: 0 }
    );
    assert_eq!(
        choose_fullscreen(&modes, 720, 1280, Some(60)),
        FullscreenChoice::Exclusive { mode: 4 }
    );
}

#[test]
fn fullscreen_is_borderless_where_no_mode_fits() {
    let modes = vec![
        VideoMode { width: 800, height: 600, refresh_rate: 60 },
        VideoMode { width: 1280, height: 720, refresh_rate: 50 },
    ];
    assert_eq!(choose_fullscreen(&modes, 1280, 720, Some(60)), FullscreenChoice::Borderless);
    assert_eq!(choose_fullscreen(&modes, 1280, 1280, None), FullscreenChoice::Borderless);
    assert_eq!(choose_fullscreen(&modes, 600, 800, Some(60)), FullscreenChoice::Borderless);
    assert_eq!(choose_fullscreen(&Vec::new(), 800, 600, None), FullscreenChoice::Borderless);
}
