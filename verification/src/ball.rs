//! A projectile and its discrete-time physics integrator.

use vstd::prelude::*;

use crate::vec2::{v_add, v_mul, Vec2};

verus! {

/// A simulated body: current position and velocity, and a radius fixed at
/// creation. Positions are viewport coordinates (y down); gravity therefore
/// has a positive y component.
#[derive(Clone, Copy, Debug, PartialEq, Eq, Structural)]
pub struct Ball {
    pub position: Vec2,
    pub velocity: Vec2,
    pub radius: i64,
}

/// One semi-implicit Euler step: gravity is applied to the velocity first,
/// and the position then moves by the updated velocity.
pub open spec fn integrate(b: Ball, delta_time: i64, gravity: Vec2) -> Ball {
    let dt = Vec2 { x: delta_time, y: delta_time };
    let velocity = v_add(b.velocity, v_mul(gravity, dt));
    let position = v_add(b.position, v_mul(velocity, dt));
    Ball { position, velocity, radius: b.radius }
}

impl Ball {
    pub fn new(x: i64, y: i64, vx: i64, vy: i64, r: i64) -> (b: Ball)
        ensures
            b == (Ball { position: Vec2 { x, y }, velocity: Vec2 { x: vx, y: vy }, radius: r }),
    {
        Ball { position: Vec2 { x, y }, velocity: Vec2 { x: vx, y: vy }, radius: r }
    }

    /// Advance this ball by one time step of `delta_time` under `gravity`.
    /// The step is deterministic: the result is a function of the ball,
    /// the time step and the gravity vector alone.
    pub fn update(&mut self, delta_time: i64, gravity: Vec2)
        ensures
            *final(self) == integrate(*old(self), delta_time, gravity),
    {
        let dt = Vec2::new(delta_time, delta_time);
        self.velocity = self.velocity.add(gravity.mul(dt));
        self.position = self.position.add(self.velocity.mul(dt));
    }
}

} // verus!
