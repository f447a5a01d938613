//! A window-physics engine: a borderless desktop window treated as a free
//! body that falls under gravity, bounces off the edges of a (possibly
//! multi-monitor) screen span, and can be grabbed and thrown with the mouse.
//!
//! All coordinates and velocities are exact fixed-point integers: `i64`
//! subpixel units, with attenuation coefficients given in permille.  The
//! host (window creation, event polling, rendering) lives outside this
//! library and feeds it plain values.

pub mod fixed;
pub mod input;
pub mod physics;
pub mod vec2;
