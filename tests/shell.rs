use window_shell::{
    App, CustomEvent, DispatchMode, ElementState, KeyCode, LoopControl, Phase, PhysicalKey,
    WindowDescriptor, WindowEvent, WINDOW_HEIGHT, WINDOW_TITLE, WINDOW_WIDTH,
};

fn key(code: KeyCode, state: ElementState) -> WindowEvent {
    WindowEvent::KeyboardInput { physical_key: PhysicalKey::Code(code), state }
}

/// A loop that has been activated and holds a window with the given id.
fn started(window: u64) -> (App<u64>, LoopControl) {
    let mut control = LoopControl::new(DispatchMode::Poll);
    let mut app: App<u64> = App::new();
    control.activate();
    assert!(app.on_activated().is_some());
    assert!(app.on_window_created::<String>(&mut control, Ok(window)).is_ok());
    assert!(!control.finish_dispatch());
    (app, control)
}

#[test]
fn activation_creates_main_window() {
    let mut control = LoopControl::new(DispatchMode::Poll);
    let mut app: App<u64> = App::new();
    assert!(!app.has_window());
    control.activate();
    assert_eq!(control.phase(), Phase::Activated);
    let descriptor = app.on_activated().expect("a window is requested");
    assert_eq!(descriptor.width, 1280);
    assert_eq!(descriptor.height, 720);
    assert!(!descriptor.title.is_empty());
    assert_eq!(descriptor.title, "wgpu window");
    assert!(app.on_window_created::<String>(&mut control, Ok(42)).is_ok());
    assert!(app.has_window());
    assert_eq!(app.window(), Some(&42));
    assert!(!control.finish_dispatch());
    assert_eq!(control.phase(), Phase::Running);
}

#[test]
fn second_activation_reuses_window() {
    let (mut app, mut control) = started(5);
    control.activate();
    assert_eq!(control.phase(), Phase::Activated);
    assert!(app.on_activated().is_none());
    assert!(app.on_window_created::<String>(&mut control, Ok(6)).is_ok());
    assert_eq!(app.window(), Some(&5));
    assert!(!control.finish_dispatch());
}

#[test]
fn close_requested_terminates() {
    let (mut app, mut control) = started(1);
    app.on_window_event(&mut control, 1, WindowEvent::CloseRequested);
    assert!(control.exit_requested());
    assert!(control.finish_dispatch());
    assert!(control.has_ended());
    assert_eq!(control.phase(), Phase::Exiting);
    control.terminate();
    assert_eq!(control.phase(), Phase::Terminated);
}

#[test]
fn escape_press_terminates() {
    let (mut app, mut control) = started(1);
    app.on_window_event(&mut control, 1, key(KeyCode::Escape, ElementState::Pressed));
    assert!(control.finish_dispatch());
    assert!(control.has_ended());
}

#[test]
fn escape_release_keeps_running() {
    let (mut app, mut control) = started(1);
    app.on_window_event(&mut control, 1, key(KeyCode::Escape, ElementState::Released));
    assert!(!control.exit_requested());
    assert!(!control.finish_dispatch());
    assert!(!control.has_ended());
    assert_eq!(control.phase(), Phase::Running);
}

#[test]
fn other_key_keeps_running() {
    let (mut app, mut control) = started(1);
    app.on_window_event(&mut control, 1, key(KeyCode::KeyA, ElementState::Pressed));
    assert!(!control.finish_dispatch());
    assert!(!control.has_ended());
    let unidentified = WindowEvent::KeyboardInput {
        physical_key: PhysicalKey::Unidentified,
        state: ElementState::Pressed,
    };
    app.on_window_event(&mut control, 1, unidentified);
    assert!(!control.finish_dispatch());
    assert_eq!(app.window(), Some(&1));
}

#[test]
fn unhandled_events_change_nothing() {
    let (mut app, mut control) = started(3);
    let events = [
        WindowEvent::Resized { width: 800, height: 600 },
        WindowEvent::RedrawRequested,
        WindowEvent::Other,
        key(KeyCode::Other, ElementState::Released),
    ];
    for event in events {
        app.on_window_event(&mut control, 3, event);
        assert!(!control.exit_requested());
        assert_eq!(control.phase(), Phase::Running);
        assert_eq!(control.dispatch_mode(), DispatchMode::Poll);
        assert_eq!(app.window(), Some(&3));
        assert!(!control.finish_dispatch());
    }
}

#[test]
fn custom_timer_event_changes_nothing() {
    let (mut app, mut control) = started(9);
    app.on_custom_event(&mut control, CustomEvent::Timer);
    assert!(!control.exit_requested());
    assert_eq!(app.window(), Some(&9));
    assert!(!control.finish_dispatch());
    assert_eq!(control.phase(), Phase::Running);
}

#[test]
fn exit_request_is_idempotent() {
    let (mut app, mut control) = started(1);
    control.request_exit();
    control.request_exit();
    app.on_window_event(&mut control, 1, WindowEvent::CloseRequested);
    assert!(control.finish_dispatch());
    app.on_window_event(&mut control, 1, key(KeyCode::Escape, ElementState::Pressed));
    control.request_exit();
    assert!(!control.finish_dispatch());
    assert!(!control.finish_dispatch());
    assert_eq!(control.phase(), Phase::Exiting);
}

#[test]
fn ended_loop_is_not_activated_again() {
    let (mut app, mut control) = started(1);
    app.on_window_event(&mut control, 1, WindowEvent::CloseRequested);
    assert!(control.finish_dispatch());
    control.activate();
    assert_eq!(control.phase(), Phase::Exiting);
    control.terminate();
    control.activate();
    assert_eq!(control.phase(), Phase::Terminated);
    assert!(!control.finish_dispatch());
}

#[test]
fn window_creation_failure_requests_exit() {
    let mut control = LoopControl::new(DispatchMode::Wait);
    let mut app: App<u64> = App::new();
    control.activate();
    assert!(app.on_activated().is_some());
    let r = app.on_window_created(&mut control, Err("refused".to_string()));
    assert_eq!(r, Err("refused".to_string()));
    assert!(!app.has_window());
    assert!(control.exit_requested());
    assert!(control.finish_dispatch());
    assert!(control.has_ended());
}

#[test]
fn exit_before_activation_stops_first_cycle() {
    let mut control = LoopControl::new(DispatchMode::Poll);
    assert_eq!(control.phase(), Phase::Uninitialized);
    control.request_exit();
    assert!(control.finish_dispatch());
    assert_eq!(control.phase(), Phase::Exiting);
}

#[test]
fn dispatch_mode_can_change() {
    let mut control = LoopControl::new(DispatchMode::Poll);
    assert_eq!(control.dispatch_mode(), DispatchMode::Poll);
    control.set_dispatch_mode(DispatchMode::Wait);
    assert_eq!(control.dispatch_mode(), DispatchMode::Wait);
    control.activate();
    assert!(!control.finish_dispatch());
    control.set_dispatch_mode(DispatchMode::Poll);
    assert_eq!(control.dispatch_mode(), DispatchMode::Poll);
    assert!(!control.exit_requested());
    assert_eq!(control.phase(), Phase::Running);
}

#[test]
fn requests_exit_classifies_events() {
    assert!(WindowEvent::CloseRequested.requests_exit());
    assert!(key(KeyCode::Escape, ElementState::Pressed).requests_exit());
    assert!(!key(KeyCode::Escape, ElementState::Released).requests_exit());
    assert!(!key(KeyCode::KeyA, ElementState::Pressed).requests_exit());
    assert!(!WindowEvent::RedrawRequested.requests_exit());
    assert!(!WindowEvent::Resized { width: 1, height: 1 }.requests_exit());
    assert!(!WindowEvent::Other.requests_exit());
}

#[test]
fn main_window_descriptor() {
    let d = WindowDescriptor::main_window();
    assert_eq!(d.title, WINDOW_TITLE);
    assert_eq!(d.title, "wgpu window");
    assert_eq!((d.width, d.height), (WINDOW_WIDTH, WINDOW_HEIGHT));
    assert_eq!((d.width, d.height), (1280, 720));
}
