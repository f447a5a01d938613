use windowfun::input::{InputWindowState, PollEvent, KEY_ESCAPE};
use windowfun::vec2::Vec2;

fn fresh() -> InputWindowState {
    InputWindowState::new(
        Vec2 { x: 400_000, y: 400_000 },
        Vec2 { x: 380_000, y: 380_000 },
        1000,
    )
}

fn poll(win: &mut InputWindowState, events: Vec<PollEvent>) {
    win.poll_events(&events, Vec2 { x: 0, y: 0 });
}

#[test]
fn pressed_only_in_press_poll() {
    let mut win = fresh();
    poll(&mut win, vec![PollEvent::KeyPress { key: 65 }]);
    assert!(win.get_key_down(65));
    assert!(win.get_key(65));

    // Next poll: still held, but the press edge is gone.
    poll(&mut win, vec![]);
    assert!(!win.get_key_down(65));
    assert!(win.get_key(65));

    poll(&mut win, vec![]);
    assert!(!win.get_key_down(65));
    assert!(win.get_key(65));
}

#[test]
fn held_cleared_by_release() {
    let mut win = fresh();
    poll(&mut win, vec![PollEvent::KeyPress { key: 65 }]);
    poll(&mut win, vec![PollEvent::KeyRelease { key: 65 }]);
    assert!(!win.get_key(65));
    assert!(!win.get_key_down(65));
}

#[test]
fn release_does_not_clear_press_edge_within_poll() {
    let mut win = fresh();
    poll(
        &mut win,
        vec![
            PollEvent::KeyPress { key: 65 },
            PollEvent::KeyRelease { key: 65 },
        ],
    );
    // The press happened within this poll, so the edge is reported even
    // though the key is no longer held.
    assert!(win.get_key_down(65));
    assert!(!win.get_key(65));
}

#[test]
fn out_of_range_codes_dropped() {
    let mut win = fresh();
    poll(
        &mut win,
        vec![
            PollEvent::KeyPress { key: 5000 },
            PollEvent::KeyPress { key: -3 },
            PollEvent::MouseButtonPress { button: 99 },
            PollEvent::MouseButtonPress { button: -1 },
        ],
    );
    assert!(!win.get_key(5000));
    assert!(!win.get_key(-3));
    assert!(!win.get_mouse_button(99));
    assert!(!win.get_mouse_button(-1));
    assert!(!win.should_close());
}

#[test]
fn escape_press_requests_close() {
    let mut win = fresh();
    poll(&mut win, vec![PollEvent::KeyPress { key: KEY_ESCAPE }]);
    assert!(win.should_close());
    // The close request is not reset by later polls.
    poll(&mut win, vec![]);
    assert!(win.should_close());
}

#[test]
fn mouse_button_edges_and_levels() {
    let mut win = fresh();
    poll(&mut win, vec![PollEvent::MouseButtonPress { button: 0 }]);
    assert!(win.get_mouse_button_down(0));
    assert!(win.get_mouse_button(0));

    poll(&mut win, vec![]);
    assert!(!win.get_mouse_button_down(0));
    assert!(win.get_mouse_button(0));

    poll(&mut win, vec![PollEvent::MouseButtonRelease { button: 0 }]);
    assert!(!win.get_mouse_button(0));
}

#[test]
fn scroll_latches_and_resets_every_poll() {
    let mut win = fresh();
    poll(&mut win, vec![PollEvent::Scroll { x: 1500, y: -2500 }]);
    assert_eq!(win.get_scroll_wheel_x_offset(), 1500);
    assert_eq!(win.get_scroll_wheel_y_offset(), -2500);

    // No scroll event this poll: the offsets read zero again.
    poll(&mut win, vec![]);
    assert_eq!(win.get_scroll_wheel_x_offset(), 0);
    assert_eq!(win.get_scroll_wheel_y_offset(), 0);
}

#[test]
fn scroll_overwrites_within_poll() {
    let mut win = fresh();
    poll(
        &mut win,
        vec![
            PollEvent::Scroll { x: 1000, y: 1000 },
            PollEvent::Scroll { x: -4000, y: 7000 },
        ],
    );
    assert_eq!(win.get_scroll_wheel_x_offset(), -4000);
    assert_eq!(win.get_scroll_wheel_y_offset(), 7000);
}

#[test]
fn first_delta_is_epsilon_then_raw() {
    let mut win = fresh();
    // First tick has no baseline: pinned to the epsilon.
    assert_eq!(win.get_deltatime(5_000_000), 1000);
    // Every later tick: the raw difference, however long.
    assert_eq!(win.get_deltatime(5_016_000), 16_000);
    assert_eq!(win.get_deltatime(100_000_000), 94_984_000);
}

#[test]
fn fps_reported_once_per_second() {
    let mut win = fresh();
    win.frame_presented(300_000);
    win.frame_presented(600_000);
    assert_eq!(win.get_fps(), 0);
    win.frame_presented(1_000_000);
    assert_eq!(win.get_fps(), 3);
    // The counter started over.
    win.frame_presented(1_500_000);
    assert_eq!(win.get_fps(), 3);
    win.frame_presented(2_000_000);
    assert_eq!(win.get_fps(), 2);
}

#[test]
fn mouse_offset_scales_with_sensitivity_and_delta() {
    let mut win = fresh();
    // Establish a one-second delta so the scaling is the identity
    // (sensitivity 1000 permille = 1.0).
    win.get_deltatime(1_000_000);
    assert_eq!(win.get_deltatime(2_000_000), 1_000_000);
    win.poll_events(&vec![], Vec2 { x: 250_000, y: 150_000 });
    let off = win.get_mouse_offset();
    // Center is (200000, 200000); both axes measure cursor minus center.
    assert_eq!(off.x, 50_000);
    assert_eq!(off.y, -50_000);
    let raw = win.get_mouse_position_raw();
    assert_eq!(raw.x, 250_000);
    assert_eq!(raw.y, 150_000);
}

#[test]
fn negative_sensitivity_inverts_the_offset() {
    let mut win = InputWindowState::new(
        Vec2 { x: 400_000, y: 400_000 },
        Vec2 { x: 380_000, y: 380_000 },
        -1000,
    );
    win.get_deltatime(1_000_000);
    win.get_deltatime(2_000_000);
    win.poll_events(&vec![], Vec2 { x: 250_000, y: 150_000 });
    let off = win.get_mouse_offset();
    assert_eq!(off.x, -50_000);
    assert_eq!(off.y, 50_000);
}

#[test]
fn stalled_delta_reported_raw_but_capped_in_offset() {
    let mut win = fresh();
    win.get_deltatime(0);
    // A thirty-second stall: the delta itself is the raw difference...
    assert_eq!(win.get_deltatime(30_000_000), 30_000_000);
    // ...while the offset scaling counts it as ten seconds at most.
    win.poll_events(&vec![], Vec2 { x: 210_000, y: 200_000 });
    let off = win.get_mouse_offset();
    assert_eq!(off.x, 100_000);
    assert_eq!(off.y, 0);
}

#[test]
fn cursor_lock_requests_recenter() {
    let mut win = fresh();
    assert_eq!(win.poll_events(&vec![], Vec2 { x: 0, y: 0 }), None);
    assert!(!win.get_cursor_locked());
    win.set_cursor_locked(true);
    assert!(win.get_cursor_locked());
    let recenter = win.poll_events(&vec![], Vec2 { x: 0, y: 0 });
    assert_eq!(recenter, Some(Vec2 { x: 200_000, y: 200_000 }));
}

#[test]
fn mouse_position_relative_to_framebuffer() {
    let mut win = fresh();
    win.poll_events(&vec![], Vec2 { x: 100_000, y: 50_000 });
    let p = win.get_mouse_position();
    assert_eq!(p.x, 80_000);
    assert_eq!(p.y, 330_000);
}

#[test]
fn window_geometry_getters() {
    let mut win = fresh();
    assert_eq!(win.get_window_size(), Vec2 { x: 400_000, y: 400_000 });
    assert_eq!(win.get_viewport_size(), Vec2 { x: 380_000, y: 380_000 });
    assert_eq!(win.get_window_position(), Vec2 { x: 0, y: 0 });
    win.set_window_position(Vec2 { x: 123_000, y: -45_000 });
    assert_eq!(win.get_window_position(), Vec2 { x: 123_000, y: -45_000 });
}

#[test]
fn request_close_sets_flag() {
    let mut win = fresh();
    assert!(!win.should_close());
    win.request_close();
    assert!(win.should_close());
}
