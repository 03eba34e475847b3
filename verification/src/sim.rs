//! Simulation state and the event-driven transitions that mutate it.
//!
//! [`App`] owns all world data: mouse and launcher positions, gravity, the
//! launch-velocity scale, the trajectory preview and the set of live
//! projectiles. One public method per input event mutates the state; a
//! renderer reads the state back through [`App::draw_list`]. The struct keeps
//! the invariant that the stored preview always equals
//! [`trajectory_spec`] of the current mouse, launcher, scale, gravity and dot
//! count — it is never stale after an event.

use vstd::prelude::*;

use crate::ball::{integrate, Ball};
use crate::fp::{clip, div_trunc, sat_add, sat_mul};
use crate::vec2::{v_add, v_mul, v_sub, Vec2};

verus! {

/// Radius of a fired projectile, in fixed-point units (8 world units).
pub const BALL_RADIUS: i64 = 8000;

/// Radius of the launcher marker in the draw list (5 world units).
pub const LAUNCHER_MARKER_RADIUS: i64 = 5000;

/// Radius of one trajectory preview dot in the draw list (3 world units).
pub const TRAJECTORY_DOT_RADIUS: i64 = 3000;

/// Default downward gravity (9.8 world units per second squared).
pub const DEFAULT_GRAVITY_Y: i64 = 9800;

/// Default per-axis launch-velocity scale (0.4, the reciprocal of 2.5).
pub const DEFAULT_VELOCITY_SCALE: i64 = 400;

/// Default number of trajectory preview dots.
pub const DEFAULT_DOT_COUNT: u32 = 10;

/// Default launcher position, x component (20 world units).
pub const DEFAULT_LAUNCHER_X: i64 = 20000;

/// Default launcher position, y component (250 world units).
pub const DEFAULT_LAUNCHER_Y: i64 = 250000;

/// A ball stays alive while some part of it could still come back into view:
/// its left edge is left of the viewport's right edge, its right edge is
/// right of the viewport's left edge, and its top edge is above the bottom
/// edge. Leaving through the top does not remove a ball.
pub open spec fn ball_in_view(b: Ball, width: i64, height: i64) -> bool {
    &&& b.position.x - b.radius < width
    &&& b.position.x + b.radius > 0
    &&& b.position.y - b.radius < height
}

/// [`ball_in_view`] as a predicate value, for one fixed viewport.
pub open spec fn in_view_pred(width: i64, height: i64) -> spec_fn(Ball) -> bool {
    |b: Ball| ball_in_view(b, width, height)
}

/// The balls that survive culling against a `width` by `height` viewport,
/// in their original relative order.
pub open spec fn cull_spec(balls: Seq<Ball>, width: i64, height: i64) -> Seq<Ball> {
    balls.filter(in_view_pred(width, height))
}

/// The velocity a ball launched right now would get: the displacement from
/// the launcher to the mouse, scaled per axis.
pub open spec fn launch_velocity_spec(mouse: Vec2, launcher: Vec2, scale: Vec2) -> Vec2 {
    v_mul(v_sub(mouse, launcher), scale)
}

/// The `t`-th preview dot (1-based), as a displacement from the launcher.
///
/// The dot index `t` is a pseudo-time unit: along each axis the launch speed
/// contributes linearly in `t` (the per-axis speed components are exactly the
/// launch velocity's components), and gravity contributes its quadratic term
/// `gravity.y * t^2 / 2`. This stylized arc deliberately differs from the
/// integrator's stepwise flight path.
pub open spec fn traj_point(vel: Vec2, gravity: Vec2, t: int) -> Vec2 {
    Vec2 {
        x: clip(vel.x * t) as i64,
        y: clip(clip(vel.y * t) + clip(div_trunc(gravity.y * t * t, 2))) as i64,
    }
}

/// The whole preview arc for the given aim configuration: `n` dots at
/// indices 1 through `n`. A dot count of zero yields the empty sequence.
pub open spec fn trajectory_spec(
    mouse: Vec2,
    launcher: Vec2,
    scale: Vec2,
    gravity: Vec2,
    n: u32,
) -> Seq<Vec2> {
    Seq::new(
        n as nat,
        |i: int| traj_point(launch_velocity_spec(mouse, launcher, scale), gravity, i + 1),
    )
}

/// How a scroll event changes the preview dot count: scrolling up
/// (negative delta) adds a dot, scrolling down removes one, and the count
/// never goes below zero.
pub open spec fn scroll_count(count: u32, scroll_delta_y: i64) -> u32
    recommends
        scroll_delta_y < 0 ==> count < u32::MAX,
{
    if scroll_delta_y < 0 {
        (count + 1) as u32
    } else if count > 0 {
        (count - 1) as u32
    } else {
        0u32
    }
}

/// One tick of the ball set: cull against the viewport, then advance every
/// survivor by the tick's elapsed time sped up tenfold.
pub open spec fn tick_balls(
    balls: Seq<Ball>,
    delta_time: i64,
    gravity: Vec2,
    width: i64,
    height: i64,
) -> Seq<Ball> {
    cull_spec(balls, width, height).map_values(
        |b: Ball| integrate(b, clip(delta_time * 10) as i64, gravity),
    )
}

/// What kind of world object a circle in the draw list stands for.
/// Colors and other styling are the renderer's policy.
#[derive(Clone, Copy, Debug, PartialEq, Eq, Structural)]
pub enum CircleKind {
    Launcher,
    TrajectoryDot,
    Projectile,
}

/// One circle for the renderer to draw, in absolute viewport coordinates.
#[derive(Clone, Copy, Debug, PartialEq, Eq, Structural)]
pub struct DrawCircle {
    pub center: Vec2,
    pub radius: i64,
    pub kind: CircleKind,
}

/// The per-frame draw list: the launcher marker first, then the preview dots
/// (each displacement offset by the launcher position), then the balls.
pub open spec fn draw_list_spec(app: App) -> Seq<DrawCircle> {
    seq![
        DrawCircle { center: app.launcher, radius: LAUNCHER_MARKER_RADIUS, kind: CircleKind::Launcher },
    ] + app.trajectory@.map_values(
        |d: Vec2| DrawCircle {
            center: v_add(app.launcher, d),
            radius: TRAJECTORY_DOT_RADIUS,
            kind: CircleKind::TrajectoryDot,
        },
    ) + app.balls@.map_values(
        |b: Ball| DrawCircle { center: b.position, radius: b.radius, kind: CircleKind::Projectile },
    )
}

/// The whole simulation state. The fields are readable everywhere; mutation
/// goes through the event methods, whose contracts assume and preserve
/// [`App::wf`].
pub struct App {
    pub mouse_position: Vec2,
    pub gravity: Vec2,
    pub velocity_scale: Vec2,
    pub trajectory_dot_count: u32,
    pub launcher: Vec2,
    pub balls: Vec<Ball>,
    pub trajectory: Vec<Vec2>,
}

impl App {
    /// The stored trajectory preview is exactly the one determined by the
    /// current mouse position, launcher position, velocity scale, gravity
    /// and dot count.
    pub open spec fn wf(self) -> bool {
        self.trajectory@ == trajectory_spec(
            self.mouse_position,
            self.launcher,
            self.velocity_scale,
            self.gravity,
            self.trajectory_dot_count,
        )
    }

    /// A fresh simulation with the compiled-in defaults: mouse at the
    /// origin, gravity pointing down, ten preview dots, no balls, and the
    /// preview already computed for that configuration.
    pub fn new() -> (app: App)
        ensures
            app.wf(),
            app.mouse_position == (Vec2 { x: 0, y: 0 }),
            app.gravity == (Vec2 { x: 0, y: DEFAULT_GRAVITY_Y }),
            app.velocity_scale == (Vec2 {
                x: DEFAULT_VELOCITY_SCALE,
                y: DEFAULT_VELOCITY_SCALE,
            }),
            app.trajectory_dot_count == DEFAULT_DOT_COUNT,
            app.launcher == (Vec2 {
                x: DEFAULT_LAUNCHER_X,
                y: DEFAULT_LAUNCHER_Y,
            }),
            app.balls@ == Seq::<Ball>::empty(),
    {
        App::with_config(
            Vec2::new(DEFAULT_LAUNCHER_X, DEFAULT_LAUNCHER_Y),
            Vec2::new(0, DEFAULT_GRAVITY_Y),
            Vec2::new(DEFAULT_VELOCITY_SCALE, DEFAULT_VELOCITY_SCALE),
            DEFAULT_DOT_COUNT,
        )
    }

    /// A fresh simulation with the given launcher position, gravity,
    /// launch-velocity scale and preview dot count. The mouse starts at the
    /// origin, no balls are live, and the preview is already computed.
    pub fn with_config(launcher: Vec2, gravity: Vec2, velocity_scale: Vec2, dot_count: u32) -> (app:
        App)
        ensures
            app.wf(),
            app.mouse_position == (Vec2 { x: 0, y: 0 }),
            app.gravity == gravity,
            app.velocity_scale == velocity_scale,
            app.trajectory_dot_count == dot_count,
            app.launcher == launcher,
            app.balls@ == Seq::<Ball>::empty(),
    {
        let mut app = App {
            mouse_position: Vec2::new(0, 0),
            gravity,
            velocity_scale,
            trajectory_dot_count: dot_count,
            launcher,
            balls: Vec::new(),
            trajectory: Vec::new(),
        };
        app.calculate_trajectory();
        app
    }

    /// Recompute the preview arc from the current aim configuration,
    /// replacing the stored one wholesale.
    fn calculate_trajectory(&mut self)
        ensures
            final(self).mouse_position == old(self).mouse_position,
            final(self).gravity == old(self).gravity,
            final(self).velocity_scale == old(self).velocity_scale,
            final(self).trajectory_dot_count == old(self).trajectory_dot_count,
            final(self).launcher == old(self).launcher,
            final(self).balls@ == old(self).balls@,
            final(self).wf(),
    {
        let vel: Vec2 = self.mouse_position.sub(self.launcher).mul(self.velocity_scale);
        let count: u32 = self.trajectory_dot_count;
        let gravity: Vec2 = self.gravity;
        let mut traj: Vec<Vec2> = Vec::new();
        let mut i: u32 = 0;
        while i < count
            invariant
                i <= count,
                traj@.len() == i as int,
                vel == launch_velocity_spec(
                    self.mouse_position,
                    self.launcher,
                    self.velocity_scale,
                ),
                forall|j: int|
                    0 <= j < i as int ==> traj@[j] == traj_point(vel, gravity, j + 1),
            decreases count - i,
        {
            let p: Vec2 = traj_point_exec(vel, gravity, i + 1);
            traj.push(p);
            i = i + 1;
        }
        self.trajectory = traj;
        proof {
            assert(self.trajectory@ =~= trajectory_spec(
                self.mouse_position,
                self.launcher,
                self.velocity_scale,
                self.gravity,
                self.trajectory_dot_count,
            ));
        }
    }

    /// The mouse moved: remember its position and recompute the preview.
    pub fn update_mouse_position(&mut self, position: Vec2)
        requires
            old(self).wf(),
        ensures
            final(self).mouse_position == position,
            final(self).gravity == old(self).gravity,
            final(self).velocity_scale == old(self).velocity_scale,
            final(self).trajectory_dot_count == old(self).trajectory_dot_count,
            final(self).launcher == old(self).launcher,
            final(self).balls@ == old(self).balls@,
            final(self).wf(),
    {
        self.mouse_position = position;
        self.calculate_trajectory();
    }

    /// The launcher was relocated to the current mouse position; the preview
    /// is recomputed so that it is not left stale.
    pub fn update_launcher_position(&mut self)
        requires
            old(self).wf(),
        ensures
            final(self).launcher == old(self).mouse_position,
            final(self).mouse_position == old(self).mouse_position,
            final(self).gravity == old(self).gravity,
            final(self).velocity_scale == old(self).velocity_scale,
            final(self).trajectory_dot_count == old(self).trajectory_dot_count,
            final(self).balls@ == old(self).balls@,
            final(self).wf(),
    {
        self.launcher = self.mouse_position;
        self.calculate_trajectory();
    }

    /// A scroll event: scrolling up adds a preview dot, scrolling down
    /// removes one, never going below zero; the preview is recomputed.
    pub fn update_trajectory_dot_count(&mut self, scroll_delta_y: i64)
        requires
            old(self).wf(),
            scroll_delta_y < 0 ==> old(self).trajectory_dot_count < u32::MAX,
        ensures
            final(self).trajectory_dot_count == scroll_count(
                old(self).trajectory_dot_count,
                scroll_delta_y,
            ),
            final(self).mouse_position == old(self).mouse_position,
            final(self).gravity == old(self).gravity,
            final(self).velocity_scale == old(self).velocity_scale,
            final(self).launcher == old(self).launcher,
            final(self).balls@ == old(self).balls@,
            final(self).wf(),
    {
        if scroll_delta_y < 0 {
            self.trajectory_dot_count = self.trajectory_dot_count + 1;
        } else if self.trajectory_dot_count != 0 {
            self.trajectory_dot_count = self.trajectory_dot_count - 1;
        }
        self.calculate_trajectory();
    }

    /// Append a new ball to the live set. The set is unbounded by design.
    pub fn spawn(&mut self, position: Vec2, velocity: Vec2, radius: i64)
        requires
            old(self).wf(),
        ensures
            final(self).balls@ == old(self).balls@.push(
                Ball { position, velocity, radius },
            ),
            final(self).mouse_position == old(self).mouse_position,
            final(self).gravity == old(self).gravity,
            final(self).velocity_scale == old(self).velocity_scale,
            final(self).trajectory_dot_count == old(self).trajectory_dot_count,
            final(self).launcher == old(self).launcher,
            final(self).trajectory@ == old(self).trajectory@,
            final(self).wf(),
    {
        self.balls.push(Ball::new(position.x, position.y, velocity.x, velocity.y, radius));
    }

    /// A left mouse press: fire a ball from the launcher with the velocity
    /// the current aim determines, at the fixed ball radius.
    pub fn launch_ball(&mut self)
        requires
            old(self).wf(),
        ensures
            final(self).balls@ == old(self).balls@.push(
                Ball {
                    position: old(self).launcher,
                    velocity: launch_velocity_spec(
                        old(self).mouse_position,
                        old(self).launcher,
                        old(self).velocity_scale,
                    ),
                    radius: BALL_RADIUS,
                },
            ),
            final(self).mouse_position == old(self).mouse_position,
            final(self).gravity == old(self).gravity,
            final(self).velocity_scale == old(self).velocity_scale,
            final(self).trajectory_dot_count == old(self).trajectory_dot_count,
            final(self).launcher == old(self).launcher,
            final(self).trajectory@ == old(self).trajectory@,
            final(self).wf(),
    {
        let vel: Vec2 = self.mouse_position.sub(self.launcher).mul(self.velocity_scale);
        let position: Vec2 = self.launcher;
        self.spawn(position, vel, BALL_RADIUS);
    }

    /// Remove every ball that has fully left the viewport sideways or has
    /// fallen past its bottom edge. Survivors keep their relative order;
    /// an empty set stays empty.
    pub fn cull(&mut self, width: i64, height: i64)
        requires
            old(self).wf(),
        ensures
            final(self).balls@ == cull_spec(old(self).balls@, width, height),
            final(self).mouse_position == old(self).mouse_position,
            final(self).gravity == old(self).gravity,
            final(self).velocity_scale == old(self).velocity_scale,
            final(self).trajectory_dot_count == old(self).trajectory_dot_count,
            final(self).launcher == old(self).launcher,
            final(self).trajectory@ == old(self).trajectory@,
            final(self).wf(),
    {
        let ghost pre: App = *self;
        let mut kept: Vec<Ball> = Vec::new();
        let mut i: usize = 0;
        while i < self.balls.len()
            invariant
                *self == pre,
                i as int <= self.balls@.len(),
                kept@ == cull_spec(self.balls@.take(i as int), width, height),
            decreases self.balls@.len() - i as int,
        {
            let b: Ball = self.balls[i];
            proof {
                broadcast use vstd::prelude::Seq::lemma_filter_push;

                assert(self.balls@.take(i as int + 1) =~= self.balls@.take(i as int).push(b));
            }
            if ball_in_view_exec(&b, width, height) {
                kept.push(b);
            }
            i = i + 1;
        }
        proof {
            assert(self.balls@.take(self.balls@.len() as int) =~= self.balls@);
        }
        self.balls = kept;
    }

    /// One simulation tick: cull against the current viewport, then advance
    /// every surviving ball by the reported elapsed time sped up tenfold.
    pub fn update(&mut self, delta_time: i64, width: i64, height: i64)
        requires
            old(self).wf(),
        ensures
            final(self).balls@ == tick_balls(
                old(self).balls@,
                delta_time,
                old(self).gravity,
                width,
                height,
            ),
            final(self).mouse_position == old(self).mouse_position,
            final(self).gravity == old(self).gravity,
            final(self).velocity_scale == old(self).velocity_scale,
            final(self).trajectory_dot_count == old(self).trajectory_dot_count,
            final(self).launcher == old(self).launcher,
            final(self).trajectory@ == old(self).trajectory@,
            final(self).wf(),
    {
        self.cull(width, height);
        let dt10: i64 = sat_mul(delta_time, 10);
        let gravity: Vec2 = self.gravity;
        let ghost culled: Seq<Ball> = self.balls@;
        let ghost pre: App = *self;
        let mut moved: Vec<Ball> = Vec::new();
        let mut i: usize = 0;
        while i < self.balls.len()
            invariant
                *self == pre,
                culled == self.balls@,
                i as int <= culled.len(),
                moved@.len() == i as int,
                dt10 as int == clip(delta_time * 10),
                gravity == pre.gravity,
                forall|j: int|
                    0 <= j < i as int ==> moved@[j] == integrate(culled[j], dt10, gravity),
            decreases culled.len() - i as int,
        {
            let mut b: Ball = self.balls[i];
            b.update(dt10, gravity);
            moved.push(b);
            i = i + 1;
        }
        self.balls = moved;
        proof {
            assert(self.balls@ =~= tick_balls(
                old(self).balls@,
                delta_time,
                pre.gravity,
                width,
                height,
            ));
        }
    }

    /// The circles a renderer should draw this frame: the launcher marker,
    /// then one dot per trajectory preview point (displacements offset by
    /// the launcher position), then every live ball at its own radius.
    pub fn draw_list(&self) -> (list: Vec<DrawCircle>)
        ensures
            list@ == draw_list_spec(*self),
    {
        let mut list: Vec<DrawCircle> = Vec::new();
        let launcher: Vec2 = self.launcher;
        list.push(
            DrawCircle { center: launcher, radius: LAUNCHER_MARKER_RADIUS, kind: CircleKind::Launcher },
        );
        let mut i: usize = 0;
        while i < self.trajectory.len()
            invariant
                i as int <= self.trajectory@.len(),
                launcher == self.launcher,
                list@.len() == 1 + i as int,
                list@[0] == (DrawCircle {
                    center: self.launcher,
                    radius: LAUNCHER_MARKER_RADIUS,
                    kind: CircleKind::Launcher,
                }),
                forall|j: int|
                    0 <= j < i as int ==> list@[j + 1] == (DrawCircle {
                        center: v_add(self.launcher, self.trajectory@[j]),
                        radius: TRAJECTORY_DOT_RADIUS,
                        kind: CircleKind::TrajectoryDot,
                    }),
            decreases self.trajectory@.len() - i as int,
        {
            let d: Vec2 = self.trajectory[i];
            list.push(
                DrawCircle {
                    center: launcher.add(d),
                    radius: TRAJECTORY_DOT_RADIUS,
                    kind: CircleKind::TrajectoryDot,
                },
            );
            i = i + 1;
        }
        let ghost dots: int = 1 + self.trajectory@.len() as int;
        let mut k: usize = 0;
        while k < self.balls.len()
            invariant
                k as int <= self.balls@.len(),
                dots == 1 + self.trajectory@.len(),
                list@.len() == dots + k as int,
                list@[0] == (DrawCircle {
                    center: self.launcher,
                    radius: LAUNCHER_MARKER_RADIUS,
                    kind: CircleKind::Launcher,
                }),
                forall|j: int|
                    0 <= j < self.trajectory@.len() ==> list@[j + 1] == (DrawCircle {
                        center: v_add(self.launcher, self.trajectory@[j]),
                        radius: TRAJECTORY_DOT_RADIUS,
                        kind: CircleKind::TrajectoryDot,
                    }),
                forall|j: int|
                    0 <= j < k as int ==> list@[dots + j] == (DrawCircle {
                        center: self.balls@[j].position,
                        radius: self.balls@[j].radius,
                        kind: CircleKind::Projectile,
                    }),
            decreases self.balls@.len() - k as int,
        {
            let b: Ball = self.balls[k];
            list.push(
                DrawCircle { center: b.position, radius: b.radius, kind: CircleKind::Projectile },
            );
            k = k + 1;
        }
        proof {
            assert(list@ =~= draw_list_spec(*self));
        }
        list
    }
}

/// Whether a ball is still (partly) within reach of the viewport; the
/// comparisons are exact, free of overflow.
fn ball_in_view_exec(b: &Ball, width: i64, height: i64) -> (r: bool)
    ensures
        r == ball_in_view(*b, width, height),
{
    let px: i128 = b.position.x as i128;
    let py: i128 = b.position.y as i128;
    let rad: i128 = b.radius as i128;
    px - rad < width as i128 && px + rad > 0 && py - rad < height as i128
}

/// The gravity contribution to the `t`-th preview dot's vertical
/// displacement: `gravity_y * t^2 / 2`, truncated and saturated.
fn half_gravity_term(gravity_y: i64, t: u32) -> (r: i64)
    ensures
        r as int == clip(div_trunc(gravity_y * (t as int) * (t as int), 2)),
{
    let ti: i128 = t as i128;
    proof {
        assert(ti * ti <= 0xffff_fffe_0000_0001) by (nonlinear_arith)
            requires
                0 <= ti <= 0xffff_ffff,
        ;
        assert(ti * ti >= 0) by (nonlinear_arith)
            requires
                0 <= ti,
        ;
    }
    let tt: i128 = ti * ti;
    proof {
        let g: int = gravity_y as int;
        assert(-0x7fff_ffff_0000_0000_8000_0000_0000_0000 <= g * (tt as int)
            <= 0x7fff_ffff_0000_0000_8000_0000_0000_0000) by (nonlinear_arith)
            requires
                -0x8000_0000_0000_0000 <= g <= 0x7fff_ffff_ffff_ffff,
                0 <= tt as int <= 0xffff_fffe_0000_0001,
        ;
    }
    let p: i128 = (gravity_y as i128) * tt;
    let q: i128 = crate::fp::div_trunc_i128(p, 2);
    proof {
        assert((gravity_y as int) * ((t as int) * (t as int)) == (gravity_y as int) * (t as int) * (
        t as int)) by (nonlinear_arith);
    }
    crate::fp::clamp_to_i64(q)
}

/// The `t`-th preview dot, computed from the launch velocity and gravity.
fn traj_point_exec(vel: Vec2, gravity: Vec2, t: u32) -> (p: Vec2)
    ensures
        p == traj_point(vel, gravity, t as int),
{
    let x: i64 = sat_mul(vel.x, t as i64);
    let linear: i64 = sat_mul(vel.y, t as i64);
    let fall: i64 = half_gravity_term(gravity.y, t);
    let y: i64 = sat_add(linear, fall);
    Vec2 { x, y }
}

} // verus!
