use windowfun::input::{InputWindowState, PollEvent, KEY_Q, KEY_RIGHT, KEY_SPACE};
use windowfun::physics::{FrameInput, Params, PhysicsLoop};
use windowfun::vec2::Vec2;

// A 1920x1080 screen with a 400x400 window, in subpixels (one pixel =
// 1000 subunits), and the stock tuning: drag 0.99, bounces -0.99 and
// -0.95, terminal velocity 50, gravity 2, jump 50, arrow nudge 20.
fn params() -> Params {
    Params {
        screen_size: Vec2 { x: 1_920_000, y: 1_080_000 },
        monitors_right: 0,
        monitors_left: 0,
        window_size: Vec2 { x: 400_000, y: 400_000 },
        drag: 990,
        bounce_x: -990,
        bounce_y: -950,
        terminal_velocity: 50_000,
        gravity: 2_000,
        jump_height: 50_000,
        arrowkeys_add: 20_000,
    }
}

fn still() -> FrameInput {
    FrameInput {
        cursor: Vec2 { x: 0, y: 0 },
        mouse1_held: false,
        space_pressed: false,
        right_held: false,
        left_held: false,
        q_held: false,
    }
}

#[test]
fn gravity_grows_velocity_below_terminal() {
    let mut lp = PhysicsLoop::new(params(), Vec2 { x: 20_000, y: 20_000 });
    let np = lp.step(Vec2 { x: 500_000, y: 500_000 }, &still());
    // Position integrated first, no bound hit, then gravity.
    assert_eq!(np, Vec2 { x: 520_000, y: 520_000 });
    assert_eq!(lp.velocity, Vec2 { x: 20_000, y: 22_000 });
}

#[test]
fn gravity_stops_at_terminal_velocity() {
    let mut lp = PhysicsLoop::new(params(), Vec2 { x: 0, y: 50_000 });
    lp.step(Vec2 { x: 500_000, y: 100_000 }, &still());
    assert_eq!(lp.velocity.y, 50_000);
}

#[test]
fn bottom_bounce_clamps_and_attenuates() {
    let mut lp = PhysicsLoop::new(params(), Vec2 { x: 10_000, y: 100_000 });
    let np = lp.step(Vec2 { x: 500_000, y: 620_000 }, &still());
    // Moved position (510000, 720000) has its bottom at 1120000, past
    // the 1080000 floor: clamp to 680000, scale the velocity by the
    // bounce and drag coefficients, then gravity.
    assert_eq!(np, Vec2 { x: 510_000, y: 680_000 });
    assert_eq!(lp.velocity.x, 9_900); // 10000 * 0.99
    assert_eq!(lp.velocity.y, -93_000); // 100000 * -0.95, then +2000
}

#[test]
fn bottom_clamp_is_idempotent_on_position() {
    let mut p = params();
    p.gravity = 0;
    let mut lp = PhysicsLoop::new(p, Vec2 { x: 0, y: 0 });
    let first = lp.step(Vec2 { x: 500_000, y: 900_000 }, &still());
    assert_eq!(first, Vec2 { x: 500_000, y: 680_000 });
    // Velocity is still zero; a second frame clamps again to the very
    // same position.
    assert_eq!(lp.velocity, Vec2 { x: 0, y: 0 });
    let second = lp.step(first, &still());
    assert_eq!(second, first);
}

#[test]
fn corner_applies_both_clamps_in_order() {
    let mut lp = PhysicsLoop::new(params(), Vec2 { x: 100_000, y: 100_000 });
    let np = lp.step(Vec2 { x: 1_800_000, y: 900_000 }, &still());
    // Moved position (1900000, 1000000) violates the bottom and the
    // right bound at once: both clamps land.
    assert_eq!(np, Vec2 { x: 1_520_000, y: 680_000 });
    // Vertical: 100000 * -0.95 = -95000, then gravity +2000.
    assert_eq!(lp.velocity.y, -93_000);
    // Horizontal: floor drag first (99000), then the right-wall bounce
    // (99000 * -0.99 = -98010).
    assert_eq!(lp.velocity.x, -98_010);
}

#[test]
fn right_bound_honors_monitor_span() {
    let mut p = params();
    p.monitors_right = 1;
    let mut lp = PhysicsLoop::new(p, Vec2 { x: 100_000, y: 0 });
    // With one monitor to the right the wall sits at 3840000; a frame
    // that would cross only the primary monitor's edge passes freely.
    let np = lp.step(Vec2 { x: 1_800_000, y: 100_000 }, &still());
    assert_eq!(np.x, 1_900_000);
    assert_eq!(lp.velocity.x, 100_000);
    // Crossing the far wall clamps there.
    let np2 = lp.step(Vec2 { x: 3_400_000, y: 100_000 }, &still());
    assert_eq!(np2.x, 3_440_000);
    assert_eq!(lp.velocity.x, -99_000);
}

#[test]
fn left_bound_honors_monitor_span() {
    let mut p = params();
    p.monitors_left = 1;
    let mut lp = PhysicsLoop::new(p, Vec2 { x: -100_000, y: 0 });
    let np = lp.step(Vec2 { x: -1_850_000, y: 100_000 }, &still());
    // The left wall sits at -1920000; the moved position -1950000
    // crosses it.
    assert_eq!(np.x, -1_920_000);
    assert_eq!(lp.velocity.x, 99_000);
}

#[test]
fn space_sets_jump_velocity() {
    let mut lp = PhysicsLoop::new(params(), Vec2 { x: 0, y: 30_000 });
    let mut input = still();
    input.space_pressed = true;
    lp.step(Vec2 { x: 500_000, y: 100_000 }, &input);
    // Space overwrites the vertical velocity after gravity; it does not
    // add to it.
    assert_eq!(lp.velocity.y, -50_000);
}

#[test]
fn arrow_keys_nudge_sideways() {
    let mut lp = PhysicsLoop::new(params(), Vec2 { x: 10_000, y: 0 });
    let mut input = still();
    input.right_held = true;
    lp.step(Vec2 { x: 500_000, y: 100_000 }, &input);
    assert_eq!(lp.velocity.x, 30_000);

    let mut input = still();
    input.left_held = true;
    lp.step(Vec2 { x: 500_000, y: 100_000 }, &input);
    assert_eq!(lp.velocity.x, 10_000);
}

#[test]
fn q_overrides_everything_to_zero() {
    let mut lp = PhysicsLoop::new(params(), Vec2 { x: 70_000, y: 40_000 });
    let mut input = still();
    input.right_held = true;
    input.left_held = true;
    input.space_pressed = true;
    input.q_held = true;
    lp.step(Vec2 { x: 500_000, y: 100_000 }, &input);
    // Gravity, the jump and both nudges would all have applied; Q wins.
    assert_eq!(lp.velocity, Vec2 { x: 0, y: 0 });
}

#[test]
fn dragging_follows_cursor_with_zero_velocity() {
    let mut lp = PhysicsLoop::new(params(), Vec2 { x: 20_000, y: 20_000 });
    let mut input = still();
    input.mouse1_held = true;
    input.cursor = Vec2 { x: 10_000, y: 10_000 };
    // Grab frame: the window does not move (cursor equals the grab
    // point) and the velocity is zeroed.
    let p1 = lp.step(Vec2 { x: 100_000, y: 100_000 }, &input);
    assert_eq!(p1, Vec2 { x: 100_000, y: 100_000 });
    assert_eq!(lp.velocity, Vec2 { x: 0, y: 0 });

    // The window follows the cursor delta from the grab point.
    input.cursor = Vec2 { x: 35_000, y: 4_000 };
    let p2 = lp.step(p1, &input);
    assert_eq!(p2, Vec2 { x: 125_000, y: 94_000 });
    assert_eq!(lp.velocity, Vec2 { x: 0, y: 0 });
}

#[test]
fn release_velocity_formula() {
    let mut p = params();
    p.gravity = 0; // isolate the release estimate from same-frame gravity
    let mut lp = PhysicsLoop::new(p, Vec2 { x: 0, y: 0 });
    let mut input = still();
    input.mouse1_held = true;
    input.cursor = Vec2 { x: 10_000, y: 10_000 };
    // Grab at cursor (10, 10) over position (100, 100): the baseline
    // becomes (110, 110).
    lp.step(Vec2 { x: 100_000, y: 100_000 }, &input);

    // Release at position (120, 90) with cursor (30, 5): the throw is
    // 0.5 * ((150, 95) - (110, 110)) = (20, -7.5).
    let mut release = still();
    release.cursor = Vec2 { x: 30_000, y: 5_000 };
    lp.step(Vec2 { x: 120_000, y: 90_000 }, &release);
    assert_eq!(lp.velocity, Vec2 { x: 20_000, y: -7_500 });
}

#[test]
fn step_window_reads_input_and_moves_window() {
    let mut win = InputWindowState::new(
        Vec2 { x: 400_000, y: 400_000 },
        Vec2 { x: 400_000, y: 400_000 },
        1000,
    );
    let mut lp = PhysicsLoop::new(params(), Vec2 { x: 20_000, y: 20_000 });
    win.set_window_position(Vec2 { x: 500_000, y: 500_000 });

    // A quiet frame: fall freely.
    win.poll_events(&vec![], Vec2 { x: 0, y: 0 });
    lp.step_window(&mut win);
    assert_eq!(win.get_window_position(), Vec2 { x: 520_000, y: 520_000 });
    assert_eq!(lp.velocity, Vec2 { x: 20_000, y: 22_000 });

    // Q held through the window's key table stops the body.
    win.poll_events(&vec![PollEvent::KeyPress { key: KEY_Q }], Vec2 { x: 0, y: 0 });
    lp.step_window(&mut win);
    assert_eq!(lp.velocity, Vec2 { x: 0, y: 0 });

    // Space only acts on its press edge; the arrows act while held.
    win.poll_events(
        &vec![
            PollEvent::KeyPress { key: KEY_SPACE },
            PollEvent::KeyPress { key: KEY_RIGHT },
            PollEvent::KeyRelease { key: KEY_Q },
        ],
        Vec2 { x: 0, y: 0 },
    );
    lp.step_window(&mut win);
    assert_eq!(lp.velocity, Vec2 { x: 20_000, y: -50_000 });
}
