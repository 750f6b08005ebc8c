use wgpu_intro::app::{handle_key, App, Command, KeyCode, WgpuAppHandler, WindowEvent};
use wgpu_intro::surface::{choose_surface_format, frame_action, FrameAction, State, SurfaceStatus};

#[test]
fn new_state_is_not_configured() {
    let s = State::new(800, 600);
    assert_eq!(s.width(), 800);
    assert_eq!(s.height(), 600);
    assert!(!s.is_surface_configured());
    assert!(!s.begin_frame());
}

#[test]
fn resize_with_zero_side_is_ignored() {
    let mut s = State::new(800, 600);
    assert!(!s.resize(0, 480));
    assert!(!s.resize(640, 0));
    assert!(!s.resize(0, 0));
    assert_eq!((s.width(), s.height(), s.is_surface_configured()), (800, 600, false));
}

#[test]
fn resize_takes_size_and_configures() {
    let mut s = State::new(0, 0);
    assert!(s.resize(1024, 768));
    assert_eq!((s.width(), s.height(), s.is_surface_configured()), (1024, 768, true));
    assert!(s.begin_frame());
    // a later empty size keeps the configuration
    assert!(!s.resize(0, 768));
    assert_eq!((s.width(), s.height(), s.is_surface_configured()), (1024, 768, true));
}

#[test]
fn resize_twice_is_resize_once() {
    let mut a = State::new(10, 10);
    let mut b = State::new(10, 10);
    a.resize(300, 200);
    b.resize(300, 200);
    b.resize(300, 200);
    assert_eq!((a.width(), a.height(), a.is_surface_configured()), (b.width(), b.height(), b.is_surface_configured()));
}

#[test]
fn frame_action_for_each_status() {
    assert_eq!(frame_action(SurfaceStatus::Success), FrameAction::Draw);
    assert_eq!(frame_action(SurfaceStatus::Suboptimal), FrameAction::Draw);
    assert_eq!(frame_action(SurfaceStatus::Timeout), FrameAction::Skip);
    assert_eq!(frame_action(SurfaceStatus::Occluded), FrameAction::Skip);
    assert_eq!(frame_action(SurfaceStatus::Validation), FrameAction::Skip);
    assert_eq!(frame_action(SurfaceStatus::Outdated), FrameAction::Reconfigure);
    assert_eq!(frame_action(SurfaceStatus::Lost), FrameAction::Fail);
}

#[test]
fn surface_format_prefers_first_srgb() {
    assert_eq!(choose_surface_format(&[false, true, true]), 1);
    assert_eq!(choose_surface_format(&[true, false]), 0);
    assert_eq!(choose_surface_format(&[false, false, false]), 0);
    assert_eq!(choose_surface_format(&[false]), 0);
    assert_eq!(choose_surface_format(&[false, false, true]), 2);
}

#[test]
fn escape_key_exits_only_when_pressed() {
    assert!(handle_key(KeyCode::Escape, true));
    assert!(!handle_key(KeyCode::Escape, false));
    assert!(!handle_key(KeyCode::Other, true));
    assert!(!handle_key(KeyCode::Other, false));
}

#[test]
fn events_before_window_are_ignored() {
    let mut app = App::new();
    assert!(app.state().is_none());
    assert_eq!(app.window_event(WindowEvent::CloseRequested), Command::Nothing);
    assert_eq!(app.window_event(WindowEvent::RedrawRequested), Command::Nothing);
    assert_eq!(app.window_event(WindowEvent::Resized { width: 10, height: 10 }), Command::Nothing);
    assert_eq!(
        app.window_event(WindowEvent::KeyboardInput { code: KeyCode::Escape, pressed: true }),
        Command::Nothing
    );
    assert!(app.state().is_none());
}

#[test]
fn resumed_installs_configured_state() {
    let mut app = App::new();
    assert!(app.resumed(800, 600));
    let s = app.state().unwrap();
    assert_eq!((s.width(), s.height(), s.is_surface_configured()), (800, 600, true));
    assert_eq!(app.window_event(WindowEvent::RedrawRequested), Command::Redraw { acquire: true });
}

#[test]
fn resumed_with_empty_window_draws_nothing_until_resized() {
    let mut app = App::new();
    assert!(!app.resumed(0, 0));
    assert_eq!(app.window_event(WindowEvent::RedrawRequested), Command::Redraw { acquire: false });
    assert_eq!(app.window_event(WindowEvent::Resized { width: 0, height: 5 }), Command::Nothing);
    assert_eq!(app.window_event(WindowEvent::RedrawRequested), Command::Redraw { acquire: false });
    assert_eq!(
        app.window_event(WindowEvent::Resized { width: 640, height: 480 }),
        Command::ConfigureSurface { width: 640, height: 480 }
    );
    assert_eq!(app.window_event(WindowEvent::RedrawRequested), Command::Redraw { acquire: true });
}

#[test]
fn user_event_resizes_given_state() {
    let mut app = App::new();
    let st = State::new(1, 1);
    assert!(app.user_event(st, 320, 240));
    let s = app.state().unwrap();
    assert_eq!((s.width(), s.height(), s.is_surface_configured()), (320, 240, true));
    let mut app2 = App::new();
    assert!(!app2.user_event(State::new(7, 9), 0, 240));
    let s2 = app2.state().unwrap();
    assert_eq!((s2.width(), s2.height(), s2.is_surface_configured()), (7, 9, false));
}

#[test]
fn close_and_escape_exit() {
    let mut app = App::new();
    app.resumed(100, 100);
    assert_eq!(app.window_event(WindowEvent::CloseRequested), Command::Exit);
    assert_eq!(
        app.window_event(WindowEvent::KeyboardInput { code: KeyCode::Escape, pressed: true }),
        Command::Exit
    );
    assert_eq!(
        app.window_event(WindowEvent::KeyboardInput { code: KeyCode::Escape, pressed: false }),
        Command::Nothing
    );
    assert_eq!(
        app.window_event(WindowEvent::KeyboardInput { code: KeyCode::Other, pressed: true }),
        Command::Nothing
    );
    assert_eq!(app.window_event(WindowEvent::Other), Command::Nothing);
}

#[test]
fn size_follows_last_nonempty_resize() {
    let mut app = App::new();
    app.resumed(0, 0);
    let events = [
        WindowEvent::Resized { width: 300, height: 200 },
        WindowEvent::RedrawRequested,
        WindowEvent::Resized { width: 640, height: 480 },
        WindowEvent::Resized { width: 0, height: 0 },
        WindowEvent::Other,
    ];
    for e in events {
        app.window_event(e);
    }
    let s = app.state().unwrap();
    assert_eq!((s.width(), s.height(), s.is_surface_configured()), (640, 480, true));
}

#[test]
fn after_frame_commands() {
    let empty = App::new();
    assert_eq!(empty.after_frame(FrameAction::Fail), Command::Nothing);
    let mut unconfigured = App::new();
    unconfigured.resumed(0, 0);
    assert_eq!(unconfigured.after_frame(FrameAction::Fail), Command::Nothing);
    assert_eq!(unconfigured.after_frame(FrameAction::Reconfigure), Command::Nothing);
    let mut app = App::new();
    app.resumed(640, 480);
    assert_eq!(app.after_frame(FrameAction::Fail), Command::Exit);
    assert_eq!(
        app.after_frame(FrameAction::Reconfigure),
        Command::ConfigureSurface { width: 640, height: 480 }
    );
    assert_eq!(app.after_frame(FrameAction::Draw), Command::Nothing);
    assert_eq!(app.after_frame(FrameAction::Skip), Command::Nothing);
    app.window_event(WindowEvent::Resized { width: 800, height: 600 });
    assert_eq!(
        app.after_frame(frame_action(SurfaceStatus::Outdated)),
        Command::ConfigureSurface { width: 800, height: 600 }
    );
    assert_eq!(app.after_frame(frame_action(SurfaceStatus::Lost)), Command::Exit);
}

#[test]
fn window_handler_creates_window_once() {
    let mut h = WgpuAppHandler::new();
    assert!(!h.has_app());
    assert!(h.resumed());
    assert!(h.has_app());
    assert!(!h.resumed());
    assert!(h.has_app());
    assert!(h.window_event(WindowEvent::CloseRequested));
    assert!(!h.window_event(WindowEvent::RedrawRequested));
    assert!(!h.window_event(WindowEvent::Resized { width: 1, height: 1 }));
}
