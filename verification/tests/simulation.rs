//! Tests for the simulation state, its event transitions, the trajectory
//! preview, projectile lifecycle and the draw list.

use projectile::ball::Ball;
use projectile::sim::{App, CircleKind, BALL_RADIUS, LAUNCHER_MARKER_RADIUS, TRAJECTORY_DOT_RADIUS};
use projectile::vec2::Vec2;

/// World units to fixed-point units.
fn units(x: f64) -> i64 {
    (x * 1000.0).round() as i64
}

fn v(x: f64, y: f64) -> Vec2 {
    Vec2::new(units(x), units(y))
}

/// The default configuration, with gravity (0, 9.8) and scale 0.4 per axis.
fn default_app() -> App {
    App::new()
}

#[test]
fn defaults_match_the_compiled_in_configuration() {
    let app = default_app();
    assert_eq!(app.launcher, v(20.0, 250.0));
    assert_eq!(app.gravity, v(0.0, 9.8));
    assert_eq!(app.velocity_scale, v(0.4, 0.4));
    assert_eq!(app.trajectory_dot_count, 10);
    assert_eq!(app.mouse_position, v(0.0, 0.0));
    assert!(app.balls.is_empty());
    // the preview is already computed for the default aim, never stale
    assert_eq!(app.trajectory.len(), 10);
}

#[test]
fn zero_displacement_launch_gives_a_resting_ball() {
    // Mouse exactly on the launcher: the launch velocity is (0, 0) and the
    // spawned ball rests at the launcher. The preview dots then have no
    // horizontal drift; only the gravity term remains in y.
    let mut app = default_app();
    app.update_mouse_position(v(20.0, 250.0));
    app.launch_ball();
    assert_eq!(app.balls.len(), 1);
    assert_eq!(app.balls[0].velocity, v(0.0, 0.0));
    assert_eq!(app.balls[0].position, v(20.0, 250.0));
    assert_eq!(app.balls[0].radius, BALL_RADIUS);
    for (i, dot) in app.trajectory.iter().enumerate() {
        let t = (i + 1) as i64;
        assert_eq!(dot.x, 0);
        assert_eq!(dot.y, units(4.9) * t * t);
    }
}

#[test]
fn two_dot_preview_matches_hand_computed_arc() {
    // launcher (0,0), mouse (25,0), scale (0.4, 0.4), gravity (0, 9.8),
    // two dots: launch velocity (10, 0), so the dots sit at x = 10 and 20
    // with the gravity term 4.9 * t^2 added along +y (downward).
    let mut app = App::with_config(v(0.0, 0.0), v(0.0, 9.8), v(0.4, 0.4), 2);
    app.update_mouse_position(v(25.0, 0.0));
    assert_eq!(app.trajectory.len(), 2);
    assert_eq!(app.trajectory[0], v(10.0, 4.9));
    assert_eq!(app.trajectory[1], v(20.0, 19.6));
}

#[test]
fn launch_velocity_scales_the_mouse_displacement() {
    let mut app = App::with_config(v(0.0, 0.0), v(0.0, 9.8), v(0.4, 0.4), 0);
    app.update_mouse_position(v(25.0, 50.0));
    app.launch_ball();
    assert_eq!(app.balls[0].velocity, v(10.0, 20.0));
    assert_eq!(app.balls[0].position, v(0.0, 0.0));
}

#[test]
fn trajectory_is_deterministic_and_has_requested_length() {
    let build = || {
        let mut app = App::with_config(v(3.0, 7.0), v(0.0, 9.8), v(0.4, 0.4), 17);
        app.update_mouse_position(v(-41.5, 12.25));
        app
    };
    let a = build();
    let b = build();
    assert_eq!(a.trajectory.len(), 17);
    assert_eq!(a.trajectory, b.trajectory);
}

#[test]
fn empty_preview_for_zero_dot_count() {
    let mut app = App::with_config(v(0.0, 0.0), v(0.0, 9.8), v(0.4, 0.4), 0);
    app.update_mouse_position(v(100.0, -30.0));
    assert!(app.trajectory.is_empty());
}

#[test]
fn scroll_count_is_floored_at_zero() {
    // up once from 0 -> 1; down once -> 0; down again -> still 0
    let mut app = App::with_config(v(0.0, 0.0), v(0.0, 9.8), v(0.4, 0.4), 0);
    app.update_trajectory_dot_count(units(-1.0));
    assert_eq!(app.trajectory_dot_count, 1);
    app.update_trajectory_dot_count(units(1.0));
    assert_eq!(app.trajectory_dot_count, 0);
    app.update_trajectory_dot_count(units(1.0));
    assert_eq!(app.trajectory_dot_count, 0);
}

#[test]
fn scroll_keeps_the_preview_current() {
    let mut app = default_app();
    app.update_mouse_position(v(40.0, 250.0));
    app.update_trajectory_dot_count(units(-1.0));
    assert_eq!(app.trajectory_dot_count, 11);
    assert_eq!(app.trajectory.len(), 11);
    // launch velocity is ((40-20)*0.4, 0) = (8, 0): dot t sits at x = 8t
    assert_eq!(app.trajectory[10], v(88.0, 4.9 * 11.0 * 11.0));
}

#[test]
fn right_press_relocates_the_launcher_and_recomputes() {
    let mut app = default_app();
    app.update_mouse_position(v(75.0, 30.0));
    app.update_launcher_position();
    assert_eq!(app.launcher, v(75.0, 30.0));
    // mouse and launcher now coincide: the preview has no horizontal drift
    assert_eq!(app.trajectory.len(), 10);
    for dot in app.trajectory.iter() {
        assert_eq!(dot.x, 0);
    }
}

#[test]
fn culling_scenario_against_a_small_viewport() {
    // viewport 200 x 150; radius-8 balls
    let (w, h) = (units(200.0), units(150.0));
    let mut app = App::with_config(v(0.0, 0.0), v(0.0, 9.8), v(0.4, 0.4), 0);
    // fully inside
    app.spawn(v(100.0, 100.0), v(0.0, 0.0), units(8.0));
    // left edge 202 > 200: fully off to the right, culled
    app.spawn(v(210.0, 100.0), v(0.0, 0.0), units(8.0));
    // left edge 197 < 200: still partly reachable, kept
    app.spawn(v(205.0, 100.0), v(0.0, 0.0), units(8.0));
    // top edge 158 >= 150: fallen past the bottom, culled
    app.spawn(v(100.0, 166.0), v(0.0, 0.0), units(8.0));
    // right edge exactly 0: gone off to the left, culled
    app.spawn(v(-8.0, 100.0), v(0.0, 0.0), units(8.0));
    app.cull(w, h);
    let kept: Vec<Vec2> = app.balls.iter().map(|b| b.position).collect();
    assert_eq!(kept, vec![v(100.0, 100.0), v(205.0, 100.0)]);
}

#[test]
fn culling_an_empty_set_is_a_no_op() {
    let mut app = App::with_config(v(0.0, 0.0), v(0.0, 9.8), v(0.4, 0.4), 0);
    app.cull(units(200.0), units(150.0));
    assert!(app.balls.is_empty());
}

#[test]
fn culling_in_bounds_set_is_a_no_op_and_idempotent() {
    let (w, h) = (units(200.0), units(150.0));
    let mut app = App::with_config(v(0.0, 0.0), v(0.0, 9.8), v(0.4, 0.4), 0);
    app.spawn(v(10.0, 10.0), v(1.0, 0.0), units(8.0));
    app.spawn(v(190.0, 140.0), v(0.0, -3.0), units(8.0));
    app.spawn(v(100.0, -500.0), v(0.0, 0.0), units(8.0)); // above the top: kept
    let before: Vec<Ball> = app.balls.clone();
    app.cull(w, h);
    assert_eq!(app.balls, before);

    // culling a set with losses, twice: the second pass changes nothing
    app.spawn(v(300.0, 100.0), v(0.0, 0.0), units(8.0));
    app.cull(w, h);
    let once: Vec<Ball> = app.balls.clone();
    app.cull(w, h);
    assert_eq!(app.balls, once);
    assert_eq!(once.len(), 3);
}

#[test]
fn tick_culls_then_integrates_survivors() {
    let (w, h) = (units(900.0), units(500.0));
    let mut app = App::with_config(v(0.0, 0.0), v(0.0, 9.8), v(0.4, 0.4), 0);
    app.spawn(v(0.0, 0.0), v(10.0, 0.0), units(8.0));
    app.spawn(v(2000.0, 0.0), v(0.0, 0.0), units(8.0)); // far off screen
    // a tick of 0.01 s runs the integrator at 0.1 s (tenfold speed-up)
    app.update(units(0.01), w, h);
    assert_eq!(app.balls.len(), 1);
    assert_eq!(app.balls[0].velocity, v(10.0, 0.98));
    assert_eq!(app.balls[0].position, v(1.0, 0.098));
}

#[test]
fn tick_with_zero_elapsed_time_only_culls() {
    let (w, h) = (units(200.0), units(150.0));
    let mut app = App::with_config(v(0.0, 0.0), v(0.0, 9.8), v(0.4, 0.4), 0);
    app.spawn(v(100.0, 100.0), v(3.0, 4.0), units(8.0));
    app.update(0, w, h);
    assert_eq!(app.balls.len(), 1);
    assert_eq!(app.balls[0].position, v(100.0, 100.0));
    assert_eq!(app.balls[0].velocity, v(3.0, 4.0));
}

#[test]
fn draw_list_orders_launcher_dots_then_balls() {
    let mut app = App::with_config(v(50.0, 60.0), v(0.0, 9.8), v(0.4, 0.4), 1);
    app.update_mouse_position(v(75.0, 60.0)); // launch velocity (10, 0)
    app.launch_ball();
    let list = app.draw_list();
    assert_eq!(list.len(), 3);

    assert_eq!(list[0].kind, CircleKind::Launcher);
    assert_eq!(list[0].center, v(50.0, 60.0));
    assert_eq!(list[0].radius, LAUNCHER_MARKER_RADIUS);

    // the single preview dot, offset by the launcher position
    assert_eq!(list[1].kind, CircleKind::TrajectoryDot);
    assert_eq!(list[1].center, v(60.0, 64.9));
    assert_eq!(list[1].radius, TRAJECTORY_DOT_RADIUS);

    assert_eq!(list[2].kind, CircleKind::Projectile);
    assert_eq!(list[2].center, v(50.0, 60.0));
    assert_eq!(list[2].radius, BALL_RADIUS);
}

#[test]
fn mouse_moves_update_aim_but_not_the_launcher() {
    let mut app = default_app();
    app.update_mouse_position(v(500.0, 100.0));
    assert_eq!(app.mouse_position, v(500.0, 100.0));
    assert_eq!(app.launcher, v(20.0, 250.0));
    app.update_mouse_position(v(-40.0, 0.0));
    assert_eq!(app.mouse_position, v(-40.0, 0.0));
    assert_eq!(app.launcher, v(20.0, 250.0));
}
