//! A small 2D projectile-motion simulation library.
//!
//! A launcher is aimed with the mouse; projectiles ("balls") are fired from it
//! and fall under constant gravity until they leave the visible area. The
//! library owns the whole simulation model: fixed-point plane vectors, the
//! discrete-time physics integrator, the trajectory preview, projectile
//! lifecycle (spawning and culling), and the event-driven state transitions.
//! Windowing, rendering and input devices stay outside; they hand the library
//! plain events and read back a list of circles to draw each frame.
//!
//! All scalar quantities are fixed-point numbers: an `i64` counting
//! thousandths of a world unit (see [`fp::SCALE`]). Arithmetic on them
//! saturates at the representable range instead of wrapping or panicking.

pub mod ball;
pub mod fp;
pub mod laws;
pub mod sim;
pub mod vec2;
