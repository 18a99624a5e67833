use kahlberg::compositor::{Compositor, Key, LoopState, OverlayResponse, Reaction, WindowInput};
use kahlberg::surface::{
    classify_acquire_error, AcquireError, FrameSkip, SurfaceConfig, SurfaceFormat, SurfaceManager,
};

const PASS: OverlayResponse = OverlayResponse { consumed: false, repaint: false };
const TAKEN: OverlayResponse = OverlayResponse { consumed: true, repaint: false };

fn startup() -> Compositor {
    Compositor::new(SurfaceManager::new(SurfaceFormat::Bgra8UnormSrgb, 1920, 1080), true)
}

#[test]
fn starts_idle_and_acquires_at_window_size() {
    let c = startup();
    assert_eq!(c.state, LoopState::Idle);
    assert_eq!(c.frame_request(), Some((1920, 1080)));
    assert!(c.redraw_when_idle());
}

#[test]
fn degenerate_resize_is_ignored_by_the_loop() {
    let mut c = startup();
    let before = c;
    let r = c.handle_window_event(WindowInput::Resized { width: 0, height: 0 }, PASS);
    assert_eq!(r, Reaction { exit: false, configure: None, request_redraw: false });
    assert_eq!(c, before);
    assert_eq!(c.frame_request(), Some((1920, 1080)));
}

#[test]
fn resize_configures_before_next_acquisition() {
    let mut c = startup();
    let r = c.handle_window_event(WindowInput::Resized { width: 640, height: 480 }, PASS);
    assert_eq!(
        r.configure,
        Some(SurfaceConfig { format: SurfaceFormat::Bgra8UnormSrgb, width: 640, height: 480 })
    );
    assert_eq!(c.state, LoopState::Resizing);
    assert_eq!(c.frame_request(), None);
    c.finish_resize();
    assert_eq!(c.state, LoopState::Idle);
    assert_eq!(c.frame_request(), Some((640, 480)));
}

#[test]
fn consumed_events_reach_no_handler() {
    let events = [
        WindowInput::CloseRequested,
        WindowInput::KeyPressed { key: Key::Escape },
        WindowInput::Resized { width: 10, height: 10 },
        WindowInput::DroppedFile,
        WindowInput::Other,
    ];
    for ev in events {
        let mut c = startup();
        let before = c;
        let r = c.handle_window_event(ev, TAKEN);
        assert_eq!(r, Reaction { exit: false, configure: None, request_redraw: false });
        assert_eq!(c, before);
    }
}

#[test]
fn overlay_repaint_request_is_passed_on() {
    let mut c = startup();
    let r = c.handle_window_event(WindowInput::Other, OverlayResponse { consumed: true, repaint: true });
    assert!(r.request_redraw);
    let r = c.handle_window_event(WindowInput::Other, OverlayResponse { consumed: false, repaint: true });
    assert!(r.request_redraw);
}

#[test]
fn escape_closes_and_stops_acquisition() {
    let mut c = startup();
    let r = c.handle_window_event(WindowInput::KeyPressed { key: Key::Escape }, PASS);
    assert!(r.exit);
    assert_eq!(c.state, LoopState::Closing);
    assert_eq!(c.frame_request(), None);
    assert!(!c.redraw_when_idle());
    let r = c.handle_window_event(WindowInput::Resized { width: 300, height: 200 }, PASS);
    assert!(r.exit);
    assert_eq!(r.configure, None);
    c.finish_resize();
    assert_eq!(c.state, LoopState::Closing);
    assert_eq!(c.frame_request(), None);
}

#[test]
fn close_request_closes() {
    let mut c = startup();
    let r = c.handle_window_event(WindowInput::CloseRequested, PASS);
    assert!(r.exit);
    assert_eq!(c.state, LoopState::Closing);
    assert_eq!(c.frame_request(), None);
}

#[test]
fn other_keys_and_dropped_files_change_nothing() {
    let mut c = startup();
    let before = c;
    let r = c.handle_window_event(WindowInput::KeyPressed { key: Key::Other }, PASS);
    assert!(!r.exit);
    let r = c.handle_window_event(WindowInput::DroppedFile, PASS);
    assert_eq!(r, Reaction { exit: false, configure: None, request_redraw: false });
    assert_eq!(c, before);
}

#[test]
fn outdated_right_after_resize_then_new_size() {
    let mut c = startup();
    let r = c.handle_window_event(WindowInput::Resized { width: 1024, height: 768 }, PASS);
    assert!(r.configure.is_some());
    c.finish_resize();
    assert_eq!(classify_acquire_error(AcquireError::Outdated), FrameSkip::Silent);
    assert_eq!(c.frame_request(), Some((1024, 768)));
}

#[test]
fn polling_policy_can_be_switched_off() {
    let c = Compositor::new(SurfaceManager::new(SurfaceFormat::Bgra8Unorm, 5, 5), false);
    assert!(!c.redraw_when_idle());
}
