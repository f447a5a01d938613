use vstd::prelude::*;
use crate::fixed::{
    offset_scale, offset_scale_spec, COORD_LIMIT, DELTA_LIMIT_US, SCREEN_COORD_LIMIT, SENS_LIMIT,
    MICROS_PER_SECOND, TIME_LIMIT_US,
};
use crate::vec2::Vec2;

verus! {

/// Size of the key table; key codes outside `0..KEY_COUNT` are dropped.
pub const KEY_COUNT: usize = 1024;

/// Size of the mouse-button table; codes outside it are dropped.
pub const MOUSE_BUTTON_COUNT: usize = 12;

/// Key and button codes follow the GLFW layout.
pub const KEY_SPACE: i32 = 32;

pub const KEY_Q: i32 = 81;

pub const KEY_ESCAPE: i32 = 256;

pub const KEY_RIGHT: i32 = 262;

pub const KEY_LEFT: i32 = 263;

pub const MOUSE_BUTTON_LEFT: i32 = 0;

/// How small the first frame's delta is taken to be, in microseconds:
/// the very first clock reading has no baseline to subtract from, so
/// the first delta is pinned to this instead of an arbitrary spike.
pub const FIRST_DELTA_US: i64 = 1000;

/// The frame counter saturates here; a billion frames cannot pass
/// between two counter resets on a real machine.
pub const FRAME_COUNT_CAP: i64 = 1_000_000_000;

/// One latched happening delivered by the native event queue during a poll.
#[derive(Clone, Copy, PartialEq, Eq, Structural, Debug)]
pub enum PollEvent {
    KeyPress { key: i32 },
    KeyRelease { key: i32 },
    MouseButtonPress { button: i32 },
    MouseButtonRelease { button: i32 },
    /// A scroll-wheel report; the offsets replace the stored ones.
    Scroll { x: i64, y: i64 },
}

/// The mathematical view of the latched input state: what a poll cycle
/// reads and rewrites.
#[verifier::ext_equal]
pub struct InputModel {
    pub keys_pressed: Seq<bool>,
    pub keys_held: Seq<bool>,
    pub mouse_buttons_pressed: Seq<bool>,
    pub mouse_buttons_held: Seq<bool>,
    pub scroll_x: int,
    pub scroll_y: int,
    pub close_requested: bool,
}

impl InputModel {
    pub open spec fn wf(self) -> bool {
        &&& self.keys_pressed.len() == KEY_COUNT
        &&& self.keys_held.len() == KEY_COUNT
        &&& self.mouse_buttons_pressed.len() == MOUSE_BUTTON_COUNT
        &&& self.mouse_buttons_held.len() == MOUSE_BUTTON_COUNT
    }
}

/// What starting a poll does to the latched state: the edge-triggered
/// sets and the scroll offsets are cleared, the held sets and the
/// close-request flag survive.
pub open spec fn begin_poll_spec(m: InputModel) -> InputModel {
    InputModel {
        keys_pressed: Seq::new(KEY_COUNT as nat, |i: int| false),
        mouse_buttons_pressed: Seq::new(MOUSE_BUTTON_COUNT as nat, |i: int| false),
        scroll_x: 0,
        scroll_y: 0,
        ..m
    }
}

/// What one event does to the latched state.  A press enters both the
/// edge-triggered and the held set; a release leaves the edge-triggered
/// set alone and clears the held bit; out-of-range codes are dropped; a
/// press of the escape key requests window close; scroll offsets are
/// replaced, not accumulated.
pub open spec fn apply_event_spec(m: InputModel, e: PollEvent) -> InputModel {
    match e {
        PollEvent::KeyPress { key } => {
            let m2 = if 0 <= key < KEY_COUNT as i32 {
                InputModel {
                    keys_pressed: m.keys_pressed.update(key as int, true),
                    keys_held: m.keys_held.update(key as int, true),
                    ..m
                }
            } else {
                m
            };
            if key == KEY_ESCAPE {
                InputModel { close_requested: true, ..m2 }
            } else {
                m2
            }
        },
        PollEvent::KeyRelease { key } => {
            if 0 <= key < KEY_COUNT as i32 {
                InputModel { keys_held: m.keys_held.update(key as int, false), ..m }
            } else {
                m
            }
        },
        PollEvent::MouseButtonPress { button } => {
            if 0 <= button < MOUSE_BUTTON_COUNT as i32 {
                InputModel {
                    mouse_buttons_pressed: m.mouse_buttons_pressed.update(button as int, true),
                    mouse_buttons_held: m.mouse_buttons_held.update(button as int, true),
                    ..m
                }
            } else {
                m
            }
        },
        PollEvent::MouseButtonRelease { button } => {
            if 0 <= button < MOUSE_BUTTON_COUNT as i32 {
                InputModel {
                    mouse_buttons_held: m.mouse_buttons_held.update(button as int, false),
                    ..m
                }
            } else {
                m
            }
        },
        PollEvent::Scroll { x, y } => {
            InputModel { scroll_x: x as int, scroll_y: y as int, ..m }
        },
    }
}

/// The latched state after a whole queue of events, applied in order.
pub open spec fn apply_events_spec(m: InputModel, es: Seq<PollEvent>) -> InputModel
    decreases es.len(),
{
    if es.len() == 0 {
        m
    } else {
        apply_events_spec(apply_event_spec(m, es[0]), es.drop_first())
    }
}

/// The latched state a full poll cycle leaves behind: a reset followed
/// by the queued events in order.
pub open spec fn poll_spec(m: InputModel, es: Seq<PollEvent>) -> InputModel {
    apply_events_spec(begin_poll_spec(m), es)
}

/// The frame delta a tick reports: pinned to a small epsilon on the
/// very first tick (which has no baseline to subtract from), the raw
/// clock difference otherwise.
pub open spec fn delta_spec(ticked: bool, last_us: int, now_us: int) -> int {
    if !ticked {
        FIRST_DELTA_US as int
    } else {
        now_us - last_us
    }
}

/// The frame delta as the cursor-offset scaling uses it: a stall longer
/// than `DELTA_LIMIT_US` counts as that long there, so that the scaled
/// product stays within machine range.
pub open spec fn offset_delta_spec(delta_us: int) -> int {
    if delta_us > DELTA_LIMIT_US {
        DELTA_LIMIT_US as int
    } else {
        delta_us
    }
}

/// The persistent window/input abstraction: one native window's
/// position and size together with the per-frame latched input state
/// and the frame clock, all in plain fixed-point integers.  The native
/// window itself (creation, event polling, buffer swapping) lives with
/// the host, which feeds this state plain values and mirrors position
/// changes back to the screen.
pub struct InputWindowState {
    /// Window position, subpixels, top-left origin.
    pub position: Vec2,
    /// Outer window size, immutable after creation.
    pub window_size: Vec2,
    /// Framebuffer size, immutable after creation.
    pub frame_size: Vec2,
    /// Cursor sensitivity in permille.
    pub sensitivity: i64,
    pub cursor_locked: bool,
    pub keys_pressed: Vec<bool>,
    pub keys_held: Vec<bool>,
    pub mouse_buttons_pressed: Vec<bool>,
    pub mouse_buttons_held: Vec<bool>,
    /// Raw cursor position, last polled, subpixels.
    pub mouse_pos: Vec2,
    /// Cursor delta from the window center, scaled by sensitivity and
    /// frame delta; meaningful while the cursor is locked.
    pub mouse_offset: Vec2,
    pub scroll_x: i64,
    pub scroll_y: i64,
    pub close_requested: bool,
    /// Whether a delta baseline exists yet (false until the first tick).
    pub ticked: bool,
    /// Clock reading of the last tick, microseconds.
    pub last_time_us: i64,
    /// Delta between the last two ticks, microseconds.
    pub delta_time_us: i64,
    /// Frames presented since the frame-rate counter last reset.
    pub count_frames: i64,
    /// Clock reading at that reset, microseconds.
    pub last_fps_time_us: i64,
    /// Frames counted during the last whole elapsed second.
    pub fps: i64,
}

impl InputWindowState {
    pub open spec fn wf(self) -> bool {
        &&& self.model().wf()
        &&& -4 * COORD_LIMIT <= self.position.x <= 4 * COORD_LIMIT
        &&& -4 * COORD_LIMIT <= self.position.y <= 4 * COORD_LIMIT
        &&& 0 <= self.window_size.x <= SCREEN_COORD_LIMIT
        &&& 0 <= self.window_size.y <= SCREEN_COORD_LIMIT
        &&& 0 <= self.frame_size.x <= SCREEN_COORD_LIMIT
        &&& 0 <= self.frame_size.y <= SCREEN_COORD_LIMIT
        &&& -SCREEN_COORD_LIMIT <= self.mouse_pos.x <= SCREEN_COORD_LIMIT
        &&& -SCREEN_COORD_LIMIT <= self.mouse_pos.y <= SCREEN_COORD_LIMIT
        &&& -SENS_LIMIT <= self.sensitivity <= SENS_LIMIT
        &&& 0 <= self.last_time_us <= TIME_LIMIT_US
        &&& 0 <= self.delta_time_us <= TIME_LIMIT_US
        &&& 0 <= self.last_fps_time_us <= TIME_LIMIT_US
        &&& 0 <= self.count_frames <= FRAME_COUNT_CAP
        &&& 0 <= self.fps <= FRAME_COUNT_CAP
    }

    /// The latched-input part of the state, as its mathematical view.
    pub open spec fn model(self) -> InputModel {
        InputModel {
            keys_pressed: self.keys_pressed@,
            keys_held: self.keys_held@,
            mouse_buttons_pressed: self.mouse_buttons_pressed@,
            mouse_buttons_held: self.mouse_buttons_held@,
            scroll_x: self.scroll_x as int,
            scroll_y: self.scroll_y as int,
            close_requested: self.close_requested,
        }
    }

    /// Everything a poll cycle does not touch: identity, geometry and
    /// the frame clock.
    pub open spec fn frame_fields_unchanged(self, o: Self) -> bool {
        &&& self.position == o.position
        &&& self.window_size == o.window_size
        &&& self.frame_size == o.frame_size
        &&& self.sensitivity == o.sensitivity
        &&& self.cursor_locked == o.cursor_locked
        &&& self.ticked == o.ticked
        &&& self.last_time_us == o.last_time_us
        &&& self.delta_time_us == o.delta_time_us
        &&& self.count_frames == o.count_frames
        &&& self.last_fps_time_us == o.last_fps_time_us
        &&& self.fps == o.fps
    }

    /// A fresh state bound to a window of the given geometry: no key or
    /// button latched, no close requested, clocks at zero.
    pub fn new(window_size: Vec2, frame_size: Vec2, sensitivity: i64) -> (r: Self)
        requires
            0 <= window_size.x <= SCREEN_COORD_LIMIT,
            0 <= window_size.y <= SCREEN_COORD_LIMIT,
            0 <= frame_size.x <= SCREEN_COORD_LIMIT,
            0 <= frame_size.y <= SCREEN_COORD_LIMIT,
            -SENS_LIMIT <= sensitivity <= SENS_LIMIT,
        ensures
            r.wf(),
            r.window_size == window_size,
            r.frame_size == frame_size,
            r.sensitivity == sensitivity,
            r.position == (Vec2 { x: 0, y: 0 }),
            r.mouse_pos == (Vec2 { x: 0, y: 0 }),
            r.mouse_offset == (Vec2 { x: 0, y: 0 }),
            !r.cursor_locked,
            !r.ticked,
            r.last_time_us == 0,
            r.delta_time_us == 0,
            r.count_frames == 0,
            r.last_fps_time_us == 0,
            r.fps == 0,
            forall|k: int| 0 <= k < KEY_COUNT ==> !r.model().keys_pressed[k] && !r.model().keys_held[k],
            forall|b: int|
                0 <= b < MOUSE_BUTTON_COUNT ==> !r.model().mouse_buttons_pressed[b]
                    && !r.model().mouse_buttons_held[b],
            r.model().scroll_x == 0,
            r.model().scroll_y == 0,
            !r.model().close_requested,
    {
        InputWindowState {
            position: Vec2 { x: 0, y: 0 },
            window_size,
            frame_size,
            sensitivity,
            cursor_locked: false,
            keys_pressed: all_false(KEY_COUNT),
            keys_held: all_false(KEY_COUNT),
            mouse_buttons_pressed: all_false(MOUSE_BUTTON_COUNT),
            mouse_buttons_held: all_false(MOUSE_BUTTON_COUNT),
            mouse_pos: Vec2 { x: 0, y: 0 },
            mouse_offset: Vec2 { x: 0, y: 0 },
            scroll_x: 0,
            scroll_y: 0,
            close_requested: false,
            ticked: false,
            last_time_us: 0,
            delta_time_us: 0,
            count_frames: 0,
            last_fps_time_us: 0,
            fps: 0,
        }
    }

    /// Start a poll cycle: clear the edge-triggered sets and the scroll
    /// offsets; held sets are not reset.
    pub fn begin_poll(&mut self)
        requires
            old(self).wf(),
        ensures
            final(self).wf(),
            final(self).model() == begin_poll_spec(old(self).model()),
            final(self).frame_fields_unchanged(*old(self)),
            final(self).mouse_pos == old(self).mouse_pos,
            final(self).mouse_offset == old(self).mouse_offset,
    {
        self.keys_pressed = all_false(KEY_COUNT);
        self.mouse_buttons_pressed = all_false(MOUSE_BUTTON_COUNT);
        self.scroll_x = 0;
        self.scroll_y = 0;
        proof {
            assert(self.keys_pressed@ =~= Seq::new(KEY_COUNT as nat, |i: int| false));
            assert(self.mouse_buttons_pressed@ =~= Seq::new(
                MOUSE_BUTTON_COUNT as nat,
                |i: int| false,
            ));
            assert(self.model() =~= begin_poll_spec(old(self).model()));
        }
    }

    /// Latch one native event into the state.
    pub fn apply_event(&mut self, e: PollEvent)
        requires
            old(self).wf(),
        ensures
            final(self).wf(),
            final(self).model() == apply_event_spec(old(self).model(), e),
            final(self).frame_fields_unchanged(*old(self)),
            final(self).mouse_pos == old(self).mouse_pos,
            final(self).mouse_offset == old(self).mouse_offset,
    {
        match e {
            PollEvent::KeyPress { key } => {
                if 0 <= key && key < KEY_COUNT as i32 {
                    self.keys_pressed.set(key as usize, true);
                    self.keys_held.set(key as usize, true);
                }
                if key == KEY_ESCAPE {
                    self.close_requested = true;
                }
            },
            PollEvent::KeyRelease { key } => {
                if 0 <= key && key < KEY_COUNT as i32 {
                    self.keys_held.set(key as usize, false);
                }
            },
            PollEvent::MouseButtonPress { button } => {
                if 0 <= button && button < MOUSE_BUTTON_COUNT as i32 {
                    self.mouse_buttons_pressed.set(button as usize, true);
                    self.mouse_buttons_held.set(button as usize, true);
                }
            },
            PollEvent::MouseButtonRelease { button } => {
                if 0 <= button && button < MOUSE_BUTTON_COUNT as i32 {
                    self.mouse_buttons_held.set(button as usize, false);
                }
            },
            PollEvent::Scroll { x, y } => {
                self.scroll_x = x;
                self.scroll_y = y;
            },
        }
        proof {
            assert(final(self).model() =~= apply_event_spec(old(self).model(), e));
        }
    }

    /// Advance one frame of input: reset the edge-triggered state, latch
    /// the queued native events in order, re-read the raw cursor and
    /// derive the centered offset from it.  Returns the point the host
    /// must move the native cursor to when cursor lock is active.
    pub fn poll_events(&mut self, events: &Vec<PollEvent>, cursor: Vec2) -> (recenter: Option<
        Vec2,
    >)
        requires
            old(self).wf(),
            -SCREEN_COORD_LIMIT <= cursor.x <= SCREEN_COORD_LIMIT,
            -SCREEN_COORD_LIMIT <= cursor.y <= SCREEN_COORD_LIMIT,
        ensures
            final(self).wf(),
            final(self).model() == poll_spec(old(self).model(), events@),
            final(self).frame_fields_unchanged(*old(self)),
            final(self).mouse_pos == cursor,
            ({
                let cx = old(self).window_size.x as int / 2;
                let cy = old(self).window_size.y as int / 2;
                let sens = old(self).sensitivity as int;
                let dt = offset_delta_spec(old(self).delta_time_us as int);
                &&& final(self).mouse_offset.x == offset_scale_spec(cursor.x - cx, sens, dt)
                &&& final(self).mouse_offset.y == offset_scale_spec(cursor.y - cy, sens, dt)
            }),
            recenter == (if old(self).cursor_locked {
                Some(
                    Vec2 {
                        x: (old(self).window_size.x as int / 2) as i64,
                        y: (old(self).window_size.y as int / 2) as i64,
                    },
                )
            } else {
                None::<Vec2>
            }),
    {
        self.begin_poll();
        let ghost m0 = begin_poll_spec(old(self).model());
        let mut i: usize = 0;
        while i < events.len()
            invariant
                self.wf(),
                i <= events@.len(),
                self.model() == apply_events_spec(m0, events@.take(i as int)),
                self.frame_fields_unchanged(*old(self)),
                -SCREEN_COORD_LIMIT <= cursor.x <= SCREEN_COORD_LIMIT,
                -SCREEN_COORD_LIMIT <= cursor.y <= SCREEN_COORD_LIMIT,
            decreases events@.len() - i,
        {
            proof {
                assert(events@.take(i + 1) =~= events@.take(i as int).push(events@[i as int]));
                lemma_apply_events_snoc(m0, events@.take(i as int), events@[i as int]);
            }
            self.apply_event(events[i]);
            i = i + 1;
        }
        proof {
            assert(events@.take(events@.len() as int) =~= events@);
        }
        self.mouse_pos = cursor;
        let cx: i64 = ((self.window_size.x as u64) / 2) as i64;
        let cy: i64 = ((self.window_size.y as u64) / 2) as i64;
        let dt: i64 = if self.delta_time_us > DELTA_LIMIT_US {
            DELTA_LIMIT_US
        } else {
            self.delta_time_us
        };
        let ox: i64 = offset_scale(cursor.x - cx, self.sensitivity, dt);
        let oy: i64 = offset_scale(cursor.y - cy, self.sensitivity, dt);
        self.mouse_offset = Vec2 { x: ox, y: oy };
        if self.cursor_locked {
            Some(Vec2 { x: cx, y: cy })
        } else {
            None
        }
    }

    /// Recompute the frame delta from a monotonic clock reading, in
    /// microseconds.  Call it exactly once per frame: every call moves
    /// the baseline, so a second call in one frame reports a near-zero
    /// interval.  The first call has no baseline, so its delta is
    /// pinned to a small epsilon rather than a startup spike; any later
    /// delta is the raw clock difference.
    pub fn get_deltatime(&mut self, now_us: i64) -> (dt: i64)
        requires
            old(self).wf(),
            old(self).last_time_us <= now_us <= TIME_LIMIT_US,
        ensures
            final(self).wf(),
            dt == delta_spec(old(self).ticked, old(self).last_time_us as int, now_us as int),
            final(self).delta_time_us == dt,
            final(self).last_time_us == now_us,
            final(self).ticked,
            final(self).model() == old(self).model(),
            final(self).position == old(self).position,
            final(self).window_size == old(self).window_size,
            final(self).frame_size == old(self).frame_size,
            final(self).sensitivity == old(self).sensitivity,
            final(self).cursor_locked == old(self).cursor_locked,
            final(self).mouse_pos == old(self).mouse_pos,
            final(self).mouse_offset == old(self).mouse_offset,
            final(self).count_frames == old(self).count_frames,
            final(self).last_fps_time_us == old(self).last_fps_time_us,
            final(self).fps == old(self).fps,
    {
        let dt: i64 = if !self.ticked {
            FIRST_DELTA_US
        } else {
            now_us - self.last_time_us
        };
        self.ticked = true;
        self.last_time_us = now_us;
        self.delta_time_us = dt;
        dt
    }

    /// Count one presented frame against the frame-rate counter.  Once a
    /// whole second has elapsed since the counter last reset, the count
    /// becomes the reported rate and the counter starts over; this gives
    /// a fresh reading once per second, not a rolling average.
    pub fn frame_presented(&mut self, now_us: i64)
        requires
            old(self).wf(),
            old(self).last_fps_time_us <= now_us <= TIME_LIMIT_US,
        ensures
            final(self).wf(),
            ({
                let c = if old(self).count_frames < FRAME_COUNT_CAP {
                    old(self).count_frames + 1
                } else {
                    old(self).count_frames as int
                };
                if now_us - old(self).last_fps_time_us >= MICROS_PER_SECOND {
                    &&& final(self).fps == c
                    &&& final(self).count_frames == 0
                    &&& final(self).last_fps_time_us == now_us
                } else {
                    &&& final(self).fps == old(self).fps
                    &&& final(self).count_frames == c
                    &&& final(self).last_fps_time_us == old(self).last_fps_time_us
                }
            }),
            final(self).model() == old(self).model(),
            final(self).position == old(self).position,
            final(self).window_size == old(self).window_size,
            final(self).frame_size == old(self).frame_size,
            final(self).sensitivity == old(self).sensitivity,
            final(self).cursor_locked == old(self).cursor_locked,
            final(self).mouse_pos == old(self).mouse_pos,
            final(self).mouse_offset == old(self).mouse_offset,
            final(self).ticked == old(self).ticked,
            final(self).last_time_us == old(self).last_time_us,
            final(self).delta_time_us == old(self).delta_time_us,
    {
        let c: i64 = if self.count_frames < FRAME_COUNT_CAP {
            self.count_frames + 1
        } else {
            self.count_frames
        };
        if now_us - self.last_fps_time_us >= MICROS_PER_SECOND {
            self.fps = c;
            self.count_frames = 0;
            self.last_fps_time_us = now_us;
        } else {
            self.count_frames = c;
        }
    }

    /// Whether the key is in the held set; out-of-range codes read false.
    pub fn get_key(&self, key: i32) -> (r: bool)
        requires
            self.wf(),
        ensures
            r == (0 <= key < KEY_COUNT && self.model().keys_held[key as int]),
    {
        if 0 <= key && key < KEY_COUNT as i32 {
            self.keys_held[key as usize]
        } else {
            false
        }
    }

    /// Whether the key entered the pressed set during the last poll.
    pub fn get_key_down(&self, key: i32) -> (r: bool)
        requires
            self.wf(),
        ensures
            r == (0 <= key < KEY_COUNT && self.model().keys_pressed[key as int]),
    {
        if 0 <= key && key < KEY_COUNT as i32 {
            self.keys_pressed[key as usize]
        } else {
            false
        }
    }

    /// Whether the button is in the held set.
    pub fn get_mouse_button(&self, button: i32) -> (r: bool)
        requires
            self.wf(),
        ensures
            r == (0 <= button < MOUSE_BUTTON_COUNT
                && self.model().mouse_buttons_held[button as int]),
    {
        if 0 <= button && button < MOUSE_BUTTON_COUNT as i32 {
            self.mouse_buttons_held[button as usize]
        } else {
            false
        }
    }

    /// Whether the button entered the pressed set during the last poll.
    pub fn get_mouse_button_down(&self, button: i32) -> (r: bool)
        requires
            self.wf(),
        ensures
            r == (0 <= button < MOUSE_BUTTON_COUNT
                && self.model().mouse_buttons_pressed[button as int]),
    {
        if 0 <= button && button < MOUSE_BUTTON_COUNT as i32 {
            self.mouse_buttons_pressed[button as usize]
        } else {
            false
        }
    }

    /// The raw cursor position as last polled, in screen coordinates.
    pub fn get_mouse_position_raw(&self) -> (r: Vec2)
        ensures
            r == self.mouse_pos,
    {
        self.mouse_pos
    }

    /// The cursor position relative to the framebuffer, with the y axis
    /// pointing up.
    pub fn get_mouse_position(&self) -> (r: Vec2)
        requires
            self.wf(),
        ensures
            r.x == self.mouse_pos.x - (self.window_size.x - self.frame_size.x),
            r.y == (self.window_size.y - self.mouse_pos.y) - (self.window_size.y
                - self.frame_size.y),
    {
        Vec2 {
            x: self.mouse_pos.x - (self.window_size.x - self.frame_size.x),
            y: (self.window_size.y - self.mouse_pos.y) - (self.window_size.y - self.frame_size.y),
        }
    }

    /// The centered, sensitivity- and delta-scaled cursor offset of the
    /// last poll.
    pub fn get_mouse_offset(&self) -> (r: Vec2)
        ensures
            r == self.mouse_offset,
    {
        self.mouse_offset
    }

    pub fn get_scroll_wheel_x_offset(&self) -> (r: i64)
        ensures
            r == self.scroll_x,
    {
        self.scroll_x
    }

    pub fn get_scroll_wheel_y_offset(&self) -> (r: i64)
        ensures
            r == self.scroll_y,
    {
        self.scroll_y
    }

    pub fn get_window_size(&self) -> (r: Vec2)
        ensures
            r == self.window_size,
    {
        self.window_size
    }

    pub fn get_viewport_size(&self) -> (r: Vec2)
        ensures
            r == self.frame_size,
    {
        self.frame_size
    }

    pub fn get_window_position(&self) -> (r: Vec2)
        ensures
            r == self.position,
    {
        self.position
    }

    /// Move the window; the host mirrors this to the native window.
    pub fn set_window_position(&mut self, pos: Vec2)
        requires
            old(self).wf(),
            -4 * COORD_LIMIT <= pos.x <= 4 * COORD_LIMIT,
            -4 * COORD_LIMIT <= pos.y <= 4 * COORD_LIMIT,
        ensures
            final(self).wf(),
            final(self).position == pos,
            final(self).model() == old(self).model(),
            *final(self) == (InputWindowState { position: pos, ..*old(self) }),
    {
        self.position = pos;
    }

    pub fn get_fps(&self) -> (r: i64)
        ensures
            r == self.fps,
    {
        self.fps
    }

    pub fn should_close(&self) -> (r: bool)
        ensures
            r == self.close_requested,
    {
        self.close_requested
    }

    /// Request window close, as the escape key does.
    pub fn request_close(&mut self)
        requires
            old(self).wf(),
        ensures
            final(self).wf(),
            *final(self) == (InputWindowState { close_requested: true, ..*old(self) }),
    {
        self.close_requested = true;
    }

    pub fn get_cursor_locked(&self) -> (r: bool)
        ensures
            r == self.cursor_locked,
    {
        self.cursor_locked
    }

    /// Record cursor-lock mode; the host applies the native cursor mode.
    pub fn set_cursor_locked(&mut self, locked: bool)
        requires
            old(self).wf(),
        ensures
            final(self).wf(),
            *final(self) == (InputWindowState { cursor_locked: locked, ..*old(self) }),
    {
        self.cursor_locked = locked;
    }
}

/// The event is a press of key `k`.
pub open spec fn is_key_press_of(e: PollEvent, k: int) -> bool {
    match e {
        PollEvent::KeyPress { key } => key == k,
        _ => false,
    }
}

/// The event is a release of key `k`.
pub open spec fn is_key_release_of(e: PollEvent, k: int) -> bool {
    match e {
        PollEvent::KeyRelease { key } => key == k,
        _ => false,
    }
}

/// The event concerns key `k` at all.
pub open spec fn is_key_event_for(e: PollEvent, k: int) -> bool {
    is_key_press_of(e, k) || is_key_release_of(e, k)
}

/// The event is a scroll report.
pub open spec fn is_scroll(e: PollEvent) -> bool {
    match e {
        PollEvent::Scroll { .. } => true,
        _ => false,
    }
}

/// One event keeps the tables well-formed.
proof fn lemma_apply_event_wf(m: InputModel, e: PollEvent)
    requires
        m.wf(),
    ensures
        apply_event_spec(m, e).wf(),
{
}

/// The pressed bit of key `k` after a queue of events: its old value,
/// or a press of `k` somewhere in the queue (releases never clear it
/// within a poll).
proof fn lemma_events_pressed(m: InputModel, es: Seq<PollEvent>, k: int)
    requires
        m.wf(),
        0 <= k < KEY_COUNT,
    ensures
        apply_events_spec(m, es).wf(),
        apply_events_spec(m, es).keys_pressed[k] == (m.keys_pressed[k] || exists|j: int|
            0 <= j < es.len() && is_key_press_of(es[j], k)),
    decreases es.len(),
{
    if es.len() == 0 {
    } else {
        let m1 = apply_event_spec(m, es[0]);
        lemma_apply_event_wf(m, es[0]);
        assert(m1.keys_pressed[k] == (m.keys_pressed[k] || is_key_press_of(es[0], k)));
        lemma_events_pressed(m1, es.drop_first(), k);
        if exists|j: int| 0 <= j < es.len() && is_key_press_of(es[j], k) {
            let j = choose|j: int| 0 <= j < es.len() && is_key_press_of(es[j], k);
            if j > 0 {
                assert(es.drop_first()[j - 1] == es[j]);
            }
        }
        if exists|j: int| 0 <= j < es.drop_first().len() && is_key_press_of(es.drop_first()[j], k) {
            let j = choose|j: int|
                0 <= j < es.drop_first().len() && is_key_press_of(es.drop_first()[j], k);
            assert(es[j + 1] == es.drop_first()[j]);
        }
    }
}

/// A held bit survives a queue that never releases its key.
proof fn lemma_held_stays_without_release(m: InputModel, es: Seq<PollEvent>, k: int)
    requires
        m.wf(),
        0 <= k < KEY_COUNT,
        m.keys_held[k],
        forall|j: int| 0 <= j < es.len() ==> !is_key_release_of(es[j], k),
    ensures
        apply_events_spec(m, es).keys_held[k],
    decreases es.len(),
{
    if es.len() > 0 {
        let m1 = apply_event_spec(m, es[0]);
        lemma_apply_event_wf(m, es[0]);
        assert(m1.keys_held[k]);
        assert forall|j: int|
            0 <= j < es.drop_first().len() implies !is_key_release_of(
            es.drop_first()[j],
            k,
        ) by {
            assert(es.drop_first()[j] == es[j + 1]);
        }
        lemma_held_stays_without_release(m1, es.drop_first(), k);
    }
}

/// A cleared held bit stays cleared through a queue that never presses
/// its key.
proof fn lemma_not_held_stays_without_press(m: InputModel, es: Seq<PollEvent>, k: int)
    requires
        m.wf(),
        0 <= k < KEY_COUNT,
        !m.keys_held[k],
        forall|j: int| 0 <= j < es.len() ==> !is_key_press_of(es[j], k),
    ensures
        !apply_events_spec(m, es).keys_held[k],
    decreases es.len(),
{
    if es.len() > 0 {
        let m1 = apply_event_spec(m, es[0]);
        lemma_apply_event_wf(m, es[0]);
        assert(!m1.keys_held[k]);
        assert forall|j: int|
            0 <= j < es.drop_first().len() implies !is_key_press_of(es.drop_first()[j], k) by {
            assert(es.drop_first()[j] == es[j + 1]);
        }
        lemma_not_held_stays_without_press(m1, es.drop_first(), k);
    }
}

/// The edge-triggered key set is exact: after a poll it contains a key
/// precisely when that poll's queue carried a press of it.  A key that
/// is merely still held from an earlier poll is not in it.
pub proof fn lemma_pressed_iff_press_in_poll(m: InputModel, es: Seq<PollEvent>, k: int)
    requires
        m.wf(),
        0 <= k < KEY_COUNT,
    ensures
        poll_spec(m, es).keys_pressed[k] <==> exists|j: int|
            0 <= j < es.len() && is_key_press_of(es[j], k),
{
    let m0 = begin_poll_spec(m);
    assert(!m0.keys_pressed[k]);
    lemma_events_pressed(m0, es, k);
}

/// The held set is level-triggered: a poll whose queue carries no event
/// for a key leaves that key's held bit exactly as it was.
pub proof fn lemma_held_persists_without_events(m: InputModel, es: Seq<PollEvent>, k: int)
    requires
        m.wf(),
        0 <= k < KEY_COUNT,
        forall|j: int| 0 <= j < es.len() ==> !is_key_event_for(es[j], k),
    ensures
        poll_spec(m, es).keys_held[k] == m.keys_held[k],
{
    let m0 = begin_poll_spec(m);
    assert(m0.keys_held[k] == m.keys_held[k]);
    if m.keys_held[k] {
        lemma_held_stays_without_release(m0, es, k);
    } else {
        lemma_not_held_stays_without_press(m0, es, k);
    }
}

/// A press not followed by a release of the same key within the poll
/// leaves the key held at the end of the poll.
pub proof fn lemma_press_then_held(m: InputModel, es: Seq<PollEvent>, k: int, jp: int)
    requires
        m.wf(),
        0 <= k < KEY_COUNT,
        0 <= jp < es.len(),
        is_key_press_of(es[jp], k),
        forall|j: int| jp < j < es.len() ==> !is_key_release_of(es[j], k),
    ensures
        poll_spec(m, es).keys_held[k],
{
    lemma_press_then_held_events(begin_poll_spec(m), es, k, jp);
}

proof fn lemma_press_then_held_events(m: InputModel, es: Seq<PollEvent>, k: int, jp: int)
    requires
        m.wf(),
        0 <= k < KEY_COUNT,
        0 <= jp < es.len(),
        is_key_press_of(es[jp], k),
        forall|j: int| jp < j < es.len() ==> !is_key_release_of(es[j], k),
    ensures
        apply_events_spec(m, es).keys_held[k],
    decreases es.len(),
{
    let m1 = apply_event_spec(m, es[0]);
    lemma_apply_event_wf(m, es[0]);
    if jp == 0 {
        assert(m1.keys_held[k]);
        assert forall|j: int|
            0 <= j < es.drop_first().len() implies !is_key_release_of(
            es.drop_first()[j],
            k,
        ) by {
            assert(es.drop_first()[j] == es[j + 1]);
        }
        lemma_held_stays_without_release(m1, es.drop_first(), k);
    } else {
        assert(es.drop_first()[jp - 1] == es[jp]);
        assert forall|j: int|
            jp - 1 < j < es.drop_first().len() implies !is_key_release_of(
            es.drop_first()[j],
            k,
        ) by {
            assert(es.drop_first()[j] == es[j + 1]);
        }
        lemma_press_then_held_events(m1, es.drop_first(), k, jp - 1);
    }
}

/// A release not followed by a press of the same key within the poll
/// leaves the key not held at the end of the poll.
pub proof fn lemma_release_then_not_held(m: InputModel, es: Seq<PollEvent>, k: int, jr: int)
    requires
        m.wf(),
        0 <= k < KEY_COUNT,
        0 <= jr < es.len(),
        is_key_release_of(es[jr], k),
        forall|j: int| jr < j < es.len() ==> !is_key_press_of(es[j], k),
    ensures
        !poll_spec(m, es).keys_held[k],
{
    lemma_release_then_not_held_events(begin_poll_spec(m), es, k, jr);
}

proof fn lemma_release_then_not_held_events(m: InputModel, es: Seq<PollEvent>, k: int, jr: int)
    requires
        m.wf(),
        0 <= k < KEY_COUNT,
        0 <= jr < es.len(),
        is_key_release_of(es[jr], k),
        forall|j: int| jr < j < es.len() ==> !is_key_press_of(es[j], k),
    ensures
        !apply_events_spec(m, es).keys_held[k],
    decreases es.len(),
{
    let m1 = apply_event_spec(m, es[0]);
    lemma_apply_event_wf(m, es[0]);
    if jr == 0 {
        assert(!m1.keys_held[k]);
        assert forall|j: int|
            0 <= j < es.drop_first().len() implies !is_key_press_of(es.drop_first()[j], k) by {
            assert(es.drop_first()[j] == es[j + 1]);
        }
        lemma_not_held_stays_without_press(m1, es.drop_first(), k);
    } else {
        assert(es.drop_first()[jr - 1] == es[jr]);
        assert forall|j: int|
            jr - 1 < j < es.drop_first().len() implies !is_key_press_of(es.drop_first()[j], k) by {
            assert(es.drop_first()[j] == es[j + 1]);
        }
        lemma_release_then_not_held_events(m1, es.drop_first(), k, jr - 1);
    }
}

/// Scroll offsets read zero after any poll whose queue carried no
/// scroll report, whatever they read before the poll.
pub proof fn lemma_scroll_resets(m: InputModel, es: Seq<PollEvent>)
    requires
        forall|j: int| 0 <= j < es.len() ==> !is_scroll(es[j]),
    ensures
        poll_spec(m, es).scroll_x == 0,
        poll_spec(m, es).scroll_y == 0,
{
    lemma_scroll_stays(begin_poll_spec(m), es);
}

proof fn lemma_scroll_stays(m: InputModel, es: Seq<PollEvent>)
    requires
        forall|j: int| 0 <= j < es.len() ==> !is_scroll(es[j]),
    ensures
        apply_events_spec(m, es).scroll_x == m.scroll_x,
        apply_events_spec(m, es).scroll_y == m.scroll_y,
    decreases es.len(),
{
    if es.len() > 0 {
        let m1 = apply_event_spec(m, es[0]);
        assert(m1.scroll_x == m.scroll_x && m1.scroll_y == m.scroll_y);
        assert forall|j: int| 0 <= j < es.drop_first().len() implies !is_scroll(
            es.drop_first()[j],
        ) by {
            assert(es.drop_first()[j] == es[j + 1]);
        }
        lemma_scroll_stays(m1, es.drop_first());
    }
}

/// Appending one event to a queue latches it after the rest.
proof fn lemma_apply_events_snoc(m: InputModel, es: Seq<PollEvent>, e: PollEvent)
    ensures
        apply_events_spec(m, es.push(e)) == apply_event_spec(apply_events_spec(m, es), e),
    decreases es.len(),
{
    if es.len() == 0 {
        assert(es.push(e)[0] == e);
        assert(es.push(e).drop_first() =~= Seq::<PollEvent>::empty());
        assert(apply_events_spec(m, es.push(e)) == apply_events_spec(
            apply_event_spec(m, e),
            Seq::<PollEvent>::empty(),
        ));
        assert(apply_events_spec(apply_event_spec(m, e), Seq::<PollEvent>::empty())
            == apply_event_spec(m, e));
        assert(apply_events_spec(m, es) == m);
    } else {
        assert(es.push(e)[0] == es[0]);
        assert(es.push(e).drop_first() =~= es.drop_first().push(e));
        lemma_apply_events_snoc(apply_event_spec(m, es[0]), es.drop_first(), e);
        assert(apply_events_spec(m, es.push(e)) == apply_events_spec(
            apply_event_spec(m, es[0]),
            es.drop_first().push(e),
        ));
        assert(apply_events_spec(m, es) == apply_events_spec(
            apply_event_spec(m, es[0]),
            es.drop_first(),
        ));
    }
}

/// A vector of `n` cleared flags.
fn all_false(n: usize) -> (v: Vec<bool>)
    ensures
        v@.len() == n,
        forall|i: int| 0 <= i < n ==> !v@[i],
{
    let mut v: Vec<bool> = Vec::new();
    let mut i: usize = 0;
    while i < n
        invariant
            v@.len() == i,
            i <= n,
            forall|j: int| 0 <= j < i ==> !v@[j],
        decreases n - i,
    {
        v.push(false);
        i = i + 1;
    }
    v
}

} // verus!
