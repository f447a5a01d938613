use vstd::prelude::*;
use crate::fixed::{
    half, half_spec, scale, scale_spec, COEFF_LIMIT, COORD_LIMIT, SCREEN_COORD_LIMIT,
};
use crate::input::{
    InputWindowState, KEY_LEFT, KEY_Q, KEY_RIGHT, KEY_SPACE, MOUSE_BUTTON_LEFT,
};
use crate::vec2::Vec2;

verus! {

/// Largest magnitude accepted for the scalar tuning parameters
/// (gravity, terminal velocity, jump height, arrow-key nudge).
pub const PARAM_LIMIT: i64 = 1_000_000_000;

/// Largest monitor count on either side of the primary monitor.
pub const MONITOR_LIMIT: i64 = 999;

/// The tuning of the physics world, all in subpixels and permille.
#[derive(Clone, Copy, PartialEq, Eq, Structural, Debug)]
pub struct Params {
    /// Size of one monitor; the virtual span extends it sideways.
    pub screen_size: Vec2,
    /// Monitors to the right of the primary one.
    pub monitors_right: i64,
    /// Monitors to the left of the primary one.
    pub monitors_left: i64,
    /// Outer window size, used for collision bounds.
    pub window_size: Vec2,
    /// Horizontal attenuation on floor contact, permille.
    pub drag: i64,
    /// Horizontal attenuation on side-wall contact, permille
    /// (negative to reverse direction).
    pub bounce_x: i64,
    /// Vertical attenuation on floor contact, permille.
    pub bounce_y: i64,
    /// Gravity stops accelerating once downward velocity reaches this.
    pub terminal_velocity: i64,
    /// Downward velocity gained per frame.
    pub gravity: i64,
    /// Upward velocity a jump sets.
    pub jump_height: i64,
    /// Horizontal velocity an arrow key adds per frame.
    pub arrowkeys_add: i64,
}

impl Params {
    pub open spec fn wf(self) -> bool {
        &&& 0 <= self.screen_size.x <= SCREEN_COORD_LIMIT
        &&& 0 <= self.screen_size.y <= SCREEN_COORD_LIMIT
        &&& 0 <= self.window_size.x <= SCREEN_COORD_LIMIT
        &&& 0 <= self.window_size.y <= SCREEN_COORD_LIMIT
        &&& 0 <= self.monitors_right <= MONITOR_LIMIT
        &&& 0 <= self.monitors_left <= MONITOR_LIMIT
        &&& -COEFF_LIMIT <= self.drag <= COEFF_LIMIT
        &&& -COEFF_LIMIT <= self.bounce_x <= COEFF_LIMIT
        &&& -COEFF_LIMIT <= self.bounce_y <= COEFF_LIMIT
        &&& -PARAM_LIMIT <= self.terminal_velocity <= PARAM_LIMIT
        &&& -PARAM_LIMIT <= self.gravity <= PARAM_LIMIT
        &&& -PARAM_LIMIT <= self.jump_height <= PARAM_LIMIT
        &&& -PARAM_LIMIT <= self.arrowkeys_add <= PARAM_LIMIT
    }

    /// The floor: the bottom of the primary monitor.
    pub open spec fn bottom_edge(self) -> int {
        self.screen_size.y as int
    }

    /// The right wall of the virtual span.
    pub open spec fn right_edge(self) -> int {
        self.screen_size.x * (1 + self.monitors_right)
    }

    /// The left wall of the virtual span.
    pub open spec fn left_edge(self) -> int {
        -(self.monitors_left * self.screen_size.x)
    }
}

/// The latched input a physics frame reads.
#[derive(Clone, Copy, PartialEq, Eq, Structural, Debug)]
pub struct FrameInput {
    /// Raw cursor position, screen coordinates, subpixels.
    pub cursor: Vec2,
    /// Left mouse button is down (level-triggered).
    pub mouse1_held: bool,
    /// Space was pressed during this poll (edge-triggered).
    pub space_pressed: bool,
    /// Right arrow is down.
    pub right_held: bool,
    /// Left arrow is down.
    pub left_held: bool,
    /// Q is down: panic-stop.
    pub q_held: bool,
}

impl FrameInput {
    pub open spec fn in_range(self) -> bool {
        &&& -SCREEN_COORD_LIMIT <= self.cursor.x <= SCREEN_COORD_LIMIT
        &&& -SCREEN_COORD_LIMIT <= self.cursor.y <= SCREEN_COORD_LIMIT
    }

    /// Snapshot the physics-relevant input of a window state.  Space
    /// triggers on the press edge; the arrow keys and Q act while held;
    /// dragging follows the held left mouse button.
    pub fn from_window(win: &InputWindowState) -> (r: FrameInput)
        requires
            win.wf(),
        ensures
            r == frame_input_spec(*win),
            r.in_range(),
    {
        FrameInput {
            cursor: win.get_mouse_position_raw(),
            mouse1_held: win.get_mouse_button(MOUSE_BUTTON_LEFT),
            space_pressed: win.get_key_down(KEY_SPACE),
            right_held: win.get_key(KEY_RIGHT),
            left_held: win.get_key(KEY_LEFT),
            q_held: win.get_key(KEY_Q),
        }
    }
}

/// The input snapshot a window state yields.
pub open spec fn frame_input_spec(win: InputWindowState) -> FrameInput {
    FrameInput {
        cursor: win.mouse_pos,
        mouse1_held: win.model().mouse_buttons_held[MOUSE_BUTTON_LEFT as int],
        space_pressed: win.model().keys_pressed[KEY_SPACE as int],
        right_held: win.model().keys_held[KEY_RIGHT as int],
        left_held: win.model().keys_held[KEY_LEFT as int],
        q_held: win.model().keys_held[KEY_Q as int],
    }
}

/// The mathematical view of a physics frame: window position, velocity
/// and the drag bookkeeping, as unbounded integers.
pub struct PhysModel {
    pub pos_x: int,
    pub pos_y: int,
    pub vel_x: int,
    pub vel_y: int,
    pub dragging: bool,
    pub grab_x: int,
    pub grab_y: int,
    pub base_x: int,
    pub base_y: int,
}

/// Position integrates by the velocity (fixed-step, not delta-scaled).
pub open spec fn integrate_spec(m: PhysModel) -> PhysModel {
    PhysModel { pos_x: m.pos_x + m.vel_x, pos_y: m.pos_y + m.vel_y, ..m }
}

/// Leaving a drag: the throw velocity is half the difference between
/// the current combined position-plus-cursor and the recorded baseline,
/// a single-sample finite-difference estimate.
pub open spec fn release_spec(m: PhysModel, i: FrameInput) -> PhysModel {
    if m.dragging {
        PhysModel {
            dragging: false,
            vel_x: half_spec(m.pos_x + i.cursor.x - m.base_x),
            vel_y: half_spec(m.pos_y + i.cursor.y - m.base_y),
            ..m
        }
    } else {
        m
    }
}

/// Floor contact: clamp to the floor, attenuate the vertical velocity
/// by the vertical bounce coefficient and the horizontal one by drag.
pub open spec fn bottom_spec(p: Params, m: PhysModel) -> PhysModel {
    if m.pos_y + p.window_size.y >= p.bottom_edge() {
        PhysModel {
            pos_y: p.bottom_edge() - p.window_size.y,
            vel_y: scale_spec(m.vel_y, p.bounce_y as int),
            vel_x: scale_spec(m.vel_x, p.drag as int),
            ..m
        }
    } else {
        m
    }
}

/// Right-wall contact: clamp and attenuate the horizontal velocity.
pub open spec fn right_spec(p: Params, m: PhysModel) -> PhysModel {
    if m.pos_x + p.window_size.x >= p.right_edge() {
        PhysModel {
            pos_x: p.right_edge() - p.window_size.x,
            vel_x: scale_spec(m.vel_x, p.bounce_x as int),
            ..m
        }
    } else {
        m
    }
}

/// Left-wall contact: clamp and attenuate the horizontal velocity.
pub open spec fn left_spec(p: Params, m: PhysModel) -> PhysModel {
    if m.pos_x <= p.left_edge() {
        PhysModel { pos_x: p.left_edge(), vel_x: scale_spec(m.vel_x, p.bounce_x as int), ..m }
    } else {
        m
    }
}

/// The three bound checks in their fixed order: bottom, right, left.
/// Each is independent; in a corner frame several clamp at once.
pub open spec fn bounds_spec(p: Params, m: PhysModel) -> PhysModel {
    left_spec(p, right_spec(p, bottom_spec(p, m)))
}

/// Gravity accelerates until terminal velocity is reached.
pub open spec fn gravity_spec(p: Params, m: PhysModel) -> PhysModel {
    if m.vel_y < p.terminal_velocity {
        PhysModel { vel_y: m.vel_y + p.gravity, ..m }
    } else {
        m
    }
}

/// The key overrides, applied after gravity, each independent: Space
/// overwrites the vertical velocity with a jump, the arrow keys nudge
/// sideways, Q zeroes both components last (panic-stop).
pub open spec fn overrides_spec(p: Params, m: PhysModel, i: FrameInput) -> PhysModel {
    let m1 = if i.space_pressed {
        PhysModel { vel_y: -p.jump_height, ..m }
    } else {
        m
    };
    let m2 = if i.right_held {
        PhysModel { vel_x: m1.vel_x + p.arrowkeys_add, ..m1 }
    } else {
        m1
    };
    let m3 = if i.left_held {
        PhysModel { vel_x: m2.vel_x - p.arrowkeys_add, ..m2 }
    } else {
        m2
    };
    if i.q_held {
        PhysModel { vel_x: 0, vel_y: 0, ..m3 }
    } else {
        m3
    }
}

/// A frame without the mouse button down: integrate, settle a pending
/// release, then bounds, gravity and key overrides in that order (the
/// bound checks see the already-moved position).
pub open spec fn free_step_spec(p: Params, m: PhysModel, i: FrameInput) -> PhysModel {
    overrides_spec(p, gravity_spec(p, bounds_spec(p, release_spec(integrate_spec(m), i))), i)
}

/// A frame with the mouse button down: drag motion governs the
/// position, velocity stays zero, the grab point is recorded on entry
/// and the release baseline is refreshed every frame.
pub open spec fn drag_step_spec(m: PhysModel, i: FrameInput) -> PhysModel {
    let gx = if m.dragging {
        m.grab_x
    } else {
        i.cursor.x as int
    };
    let gy = if m.dragging {
        m.grab_y
    } else {
        i.cursor.y as int
    };
    PhysModel {
        dragging: true,
        grab_x: gx,
        grab_y: gy,
        vel_x: 0,
        vel_y: 0,
        pos_x: m.pos_x + i.cursor.x - gx,
        pos_y: m.pos_y + i.cursor.y - gy,
        base_x: m.pos_x + i.cursor.x,
        base_y: m.pos_y + i.cursor.y,
    }
}

/// One whole physics frame: exactly one of drag motion and
/// free-fall/bounce motion governs the position update.
pub open spec fn step_spec(p: Params, m: PhysModel, i: FrameInput) -> PhysModel {
    if i.mouse1_held {
        drag_step_spec(m, i)
    } else {
        free_step_spec(p, m, i)
    }
}

/// The per-frame physics engine: consumes a window's latched input once
/// per iteration, applies gravity, drag, bounce and throw rules, and
/// repositions the window.
pub struct PhysicsLoop {
    pub params: Params,
    /// Persisted across frames; zero while dragging.
    pub velocity: Vec2,
    /// A drag is in progress.
    pub dragging: bool,
    /// Cursor position at grab time.
    pub grab: Vec2,
    /// Combined position-plus-cursor of the last dragged frame, the
    /// baseline of the release-velocity estimate.
    pub baseline: Vec2,
}

impl PhysicsLoop {
    /// The loop state together with a window position, as its view.
    pub open spec fn model(self, pos: Vec2) -> PhysModel {
        PhysModel {
            pos_x: pos.x as int,
            pos_y: pos.y as int,
            vel_x: self.velocity.x as int,
            vel_y: self.velocity.y as int,
            dragging: self.dragging,
            grab_x: self.grab.x as int,
            grab_y: self.grab.y as int,
            base_x: self.baseline.x as int,
            base_y: self.baseline.y as int,
        }
    }

    pub open spec fn state_in_range(self) -> bool {
        &&& -COORD_LIMIT <= self.velocity.x <= COORD_LIMIT
        &&& -COORD_LIMIT <= self.velocity.y <= COORD_LIMIT
        &&& -SCREEN_COORD_LIMIT <= self.grab.x <= SCREEN_COORD_LIMIT
        &&& -SCREEN_COORD_LIMIT <= self.grab.y <= SCREEN_COORD_LIMIT
        &&& -(COORD_LIMIT + SCREEN_COORD_LIMIT) <= self.baseline.x <= COORD_LIMIT
            + SCREEN_COORD_LIMIT
        &&& -(COORD_LIMIT + SCREEN_COORD_LIMIT) <= self.baseline.y <= COORD_LIMIT
            + SCREEN_COORD_LIMIT
    }

    pub open spec fn wf(self) -> bool {
        &&& self.params.wf()
        &&& self.state_in_range()
    }

    /// A fresh loop: no drag in progress, the given starting velocity.
    pub fn new(params: Params, initial_velocity: Vec2) -> (r: PhysicsLoop)
        requires
            params.wf(),
            -COORD_LIMIT <= initial_velocity.x <= COORD_LIMIT,
            -COORD_LIMIT <= initial_velocity.y <= COORD_LIMIT,
        ensures
            r.wf(),
            r.params == params,
            r.velocity == initial_velocity,
            !r.dragging,
    {
        PhysicsLoop {
            params,
            velocity: initial_velocity,
            dragging: false,
            grab: Vec2 { x: 0, y: 0 },
            baseline: Vec2 { x: 0, y: 0 },
        }
    }

    /// One physics frame over a bare position and input snapshot:
    /// returns the new window position and updates velocity and drag
    /// bookkeeping, exactly as `step_spec` says.
    #[verifier::rlimit(80)]
    pub fn step(&mut self, pos: Vec2, input: &FrameInput) -> (new_pos: Vec2)
        requires
            old(self).wf(),
            pos.in_range(),
            input.in_range(),
        ensures
            final(self).params == old(self).params,
            ({
                let post = step_spec(old(self).params, old(self).model(pos), *input);
                &&& new_pos.x == post.pos_x
                &&& new_pos.y == post.pos_y
                &&& final(self).velocity.x == post.vel_x
                &&& final(self).velocity.y == post.vel_y
                &&& final(self).dragging == post.dragging
                &&& final(self).grab.x == post.grab_x
                &&& final(self).grab.y == post.grab_y
                &&& final(self).baseline.x == post.base_x
                &&& final(self).baseline.y == post.base_y
            }),
            -3 * COORD_LIMIT <= new_pos.x <= 3 * COORD_LIMIT,
            -3 * COORD_LIMIT <= new_pos.y <= 3 * COORD_LIMIT,
            -3 * COORD_LIMIT <= final(self).velocity.x <= 3 * COORD_LIMIT,
            -3 * COORD_LIMIT <= final(self).velocity.y <= 3 * COORD_LIMIT,
            -SCREEN_COORD_LIMIT <= final(self).grab.x <= SCREEN_COORD_LIMIT,
            -SCREEN_COORD_LIMIT <= final(self).grab.y <= SCREEN_COORD_LIMIT,
            -(COORD_LIMIT + SCREEN_COORD_LIMIT) <= final(self).baseline.x <= COORD_LIMIT
                + SCREEN_COORD_LIMIT,
            -(COORD_LIMIT + SCREEN_COORD_LIMIT) <= final(self).baseline.y <= COORD_LIMIT
                + SCREEN_COORD_LIMIT,
    {
        if input.mouse1_held {
            if !self.dragging {
                self.dragging = true;
                self.grab = input.cursor;
            }
            self.velocity = Vec2 { x: 0, y: 0 };
            let new_pos = Vec2 {
                x: pos.x + input.cursor.x - self.grab.x,
                y: pos.y + input.cursor.y - self.grab.y,
            };
            self.baseline = Vec2 { x: pos.x + input.cursor.x, y: pos.y + input.cursor.y };
            new_pos
        } else {
            let mut p = Vec2 { x: pos.x + self.velocity.x, y: pos.y + self.velocity.y };
            if self.dragging {
                self.dragging = false;
                self.velocity = Vec2 {
                    x: half(p.x + input.cursor.x - self.baseline.x),
                    y: half(p.y + input.cursor.y - self.baseline.y),
                };
            }
            if p.y + self.params.window_size.y >= self.params.screen_size.y {
                p.y = self.params.screen_size.y - self.params.window_size.y;
                self.velocity = Vec2 {
                    x: scale(self.velocity.x, self.params.drag),
                    y: scale(self.velocity.y, self.params.bounce_y),
                };
            }
            proof {
                crate::fixed::lemma_mul_abs_bound(
                    self.params.screen_size.x as int,
                    1 + self.params.monitors_right,
                    SCREEN_COORD_LIMIT as int,
                    1 + MONITOR_LIMIT,
                );
                crate::fixed::lemma_mul_abs_bound(
                    self.params.monitors_left as int,
                    self.params.screen_size.x as int,
                    MONITOR_LIMIT as int,
                    SCREEN_COORD_LIMIT as int,
                );
            }
            let right: i64 = self.params.screen_size.x * (1 + self.params.monitors_right);
            if p.x + self.params.window_size.x >= right {
                p.x = right - self.params.window_size.x;
                self.velocity = Vec2 {
                    x: scale(self.velocity.x, self.params.bounce_x),
                    y: self.velocity.y,
                };
            }
            let left: i64 = -(self.params.monitors_left * self.params.screen_size.x);
            if p.x <= left {
                p.x = left;
                self.velocity = Vec2 {
                    x: scale(self.velocity.x, self.params.bounce_x),
                    y: self.velocity.y,
                };
            }
            if self.velocity.y < self.params.terminal_velocity {
                self.velocity = Vec2 {
                    x: self.velocity.x,
                    y: self.velocity.y + self.params.gravity,
                };
            }
            if input.space_pressed {
                self.velocity = Vec2 { x: self.velocity.x, y: -self.params.jump_height };
            }
            if input.right_held {
                self.velocity = Vec2 {
                    x: self.velocity.x + self.params.arrowkeys_add,
                    y: self.velocity.y,
                };
            }
            if input.left_held {
                self.velocity = Vec2 {
                    x: self.velocity.x - self.params.arrowkeys_add,
                    y: self.velocity.y,
                };
            }
            if input.q_held {
                self.velocity = Vec2 { x: 0, y: 0 };
            }
            p
        }
    }

    /// One whole frame against a window: snapshot its latched input,
    /// run the physics frame on its position, and write the new
    /// position back.  Nothing else of the window changes.
    pub fn step_window(&mut self, win: &mut InputWindowState)
        requires
            old(self).wf(),
            old(win).wf(),
            old(win).position.in_range(),
        ensures
            final(self).params == old(self).params,
            final(win).wf(),
            ({
                let post = step_spec(
                    old(self).params,
                    old(self).model(old(win).position),
                    frame_input_spec(*old(win)),
                );
                &&& final(win).position.x == post.pos_x
                &&& final(win).position.y == post.pos_y
                &&& final(self).velocity.x == post.vel_x
                &&& final(self).velocity.y == post.vel_y
                &&& final(self).dragging == post.dragging
                &&& final(self).grab.x == post.grab_x
                &&& final(self).grab.y == post.grab_y
                &&& final(self).baseline.x == post.base_x
                &&& final(self).baseline.y == post.base_y
            }),
            *final(win) == (InputWindowState { position: final(win).position, ..*old(win) }),
    {
        let input = FrameInput::from_window(win);
        let pos = win.get_window_position();
        let new_pos = self.step(pos, &input);
        win.set_window_position(new_pos);
    }
}

/// While drag motion governs a frame, the persisted velocity is zero:
/// picking the window up introduces no velocity, and none accumulates
/// until the documented release estimate sets one.
pub proof fn lemma_drag_zero_velocity(p: Params, m: PhysModel, i: FrameInput)
    requires
        i.mouse1_held,
    ensures
        step_spec(p, m, i).dragging,
        step_spec(p, m, i).vel_x == 0,
        step_spec(p, m, i).vel_y == 0,
{
}

/// Free-fall growth of the vertical velocity: in a frame with no drag
/// active, no bound hit by the moved position, and neither Space nor Q
/// fired, the vertical velocity grows by exactly the gravitational
/// acceleration while below terminal velocity and is otherwise
/// unchanged.
pub proof fn lemma_gravity_growth(p: Params, m: PhysModel, i: FrameInput)
    requires
        !i.mouse1_held,
        !m.dragging,
        !i.space_pressed,
        !i.q_held,
        (m.pos_y + m.vel_y) + p.window_size.y < p.bottom_edge(),
        (m.pos_x + m.vel_x) + p.window_size.x < p.right_edge(),
        m.pos_x + m.vel_x > p.left_edge(),
    ensures
        step_spec(p, m, i).vel_y == (if m.vel_y < p.terminal_velocity {
            m.vel_y + p.gravity
        } else {
            m.vel_y
        }),
{
}

/// The bottom-bound clamp is idempotent on position: a second
/// application with no intervening velocity change leaves the window
/// exactly where the first put it.
pub proof fn lemma_bottom_clamp_idempotent(p: Params, m: PhysModel)
    ensures
        bottom_spec(p, bottom_spec(p, m)).pos_x == bottom_spec(p, m).pos_x,
        bottom_spec(p, bottom_spec(p, m)).pos_y == bottom_spec(p, m).pos_y,
{
}

/// The release-velocity formula: leaving a drag whose baseline was
/// recorded as `p0 + c0`, at position `p1` and cursor `c1`, sets the
/// velocity to exactly half of `(p1 + c1) - (p0 + c0)`, truncated
/// toward zero, on each axis.
pub proof fn lemma_release_velocity(
    m: PhysModel,
    i: FrameInput,
    p0x: int,
    p0y: int,
    c0x: int,
    c0y: int,
)
    requires
        m.dragging,
        m.base_x == p0x + c0x,
        m.base_y == p0y + c0y,
    ensures
        !release_spec(m, i).dragging,
        release_spec(m, i).vel_x == half_spec((m.pos_x + i.cursor.x) - (p0x + c0x)),
        release_spec(m, i).vel_y == half_spec((m.pos_y + i.cursor.y) - (p0y + c0y)),
{
}

/// Q is a panic-stop: a frame with Q down and the mouse button up
/// leaves both velocity components zero, whatever gravity, bounces,
/// a release or the other keys did earlier in the same frame.
pub proof fn lemma_q_panic_stop(p: Params, m: PhysModel, i: FrameInput)
    requires
        !i.mouse1_held,
        i.q_held,
    ensures
        step_spec(p, m, i).vel_x == 0,
        step_spec(p, m, i).vel_y == 0,
{
}

/// A corner frame: a position violating the bottom and the right bound
/// at once gets both clamps and both attenuations, in the fixed order:
/// the floor applies drag to the horizontal velocity first, then the
/// right wall applies its bounce to that result.  The two axes stay
/// independent.
pub proof fn lemma_corner_both_clamps(p: Params, m: PhysModel)
    requires
        m.pos_y + p.window_size.y >= p.bottom_edge(),
        m.pos_x + p.window_size.x >= p.right_edge(),
        p.right_edge() - p.window_size.x > p.left_edge(),
    ensures
        bounds_spec(p, m).pos_y == p.bottom_edge() - p.window_size.y,
        bounds_spec(p, m).pos_x == p.right_edge() - p.window_size.x,
        bounds_spec(p, m).vel_y == scale_spec(m.vel_y, p.bounce_y as int),
        bounds_spec(p, m).vel_x == scale_spec(
            scale_spec(m.vel_x, p.drag as int),
            p.bounce_x as int,
        ),
{
}

} // verus!
