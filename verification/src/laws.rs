//! General laws of the simulation, stated and proved once and for all.

use vstd::prelude::*;

use crate::ball::Ball;
use crate::sim::{ball_in_view, cull_spec, in_view_pred, scroll_count, trajectory_spec, App};
use crate::vec2::Vec2;

verus! {

/// Culling a set of balls that are all still within bounds is a no-op.
pub proof fn lemma_cull_within_bounds_noop(balls: Seq<Ball>, width: i64, height: i64)
    requires
        forall|i: int| 0 <= i < balls.len() ==> ball_in_view(#[trigger] balls[i], width, height),
    ensures
        cull_spec(balls, width, height) == balls,
    decreases balls.len(),
{
    reveal(Seq::filter);
    if balls.len() == 0 {
        assert(cull_spec(balls, width, height) =~= balls);
    } else {
        let prefix = balls.drop_last();
        assert(forall|i: int|
            0 <= i < prefix.len() ==> ball_in_view(#[trigger] prefix[i], width, height));
        lemma_cull_within_bounds_noop(prefix, width, height);
        assert(ball_in_view(balls.last(), width, height));
        assert(cull_spec(balls, width, height) =~= balls);
    }
}

/// Culling is idempotent: culling an already culled set changes nothing.
pub proof fn lemma_cull_idempotent(balls: Seq<Ball>, width: i64, height: i64)
    ensures
        cull_spec(cull_spec(balls, width, height), width, height) == cull_spec(
            balls,
            width,
            height,
        ),
{
    let culled = cull_spec(balls, width, height);
    assert forall|i: int| 0 <= i < culled.len() implies ball_in_view(
        #[trigger] culled[i],
        width,
        height,
    ) by {
        balls.lemma_filter_pred(in_view_pred(width, height), i);
    }
    lemma_cull_within_bounds_noop(culled, width, height);
}

/// The preview arc is a pure function of the aim configuration: two states
/// that agree on mouse, launcher, velocity scale, gravity and dot count hold
/// identical preview sequences.
pub proof fn lemma_trajectory_deterministic(a: App, b: App)
    requires
        a.wf(),
        b.wf(),
        a.mouse_position == b.mouse_position,
        a.launcher == b.launcher,
        a.velocity_scale == b.velocity_scale,
        a.gravity == b.gravity,
        a.trajectory_dot_count == b.trajectory_dot_count,
    ensures
        a.trajectory@ == b.trajectory@,
{
}

/// The preview arc always has exactly as many dots as the dot count asks
/// for.
pub proof fn lemma_trajectory_length(
    mouse: Vec2,
    launcher: Vec2,
    scale: Vec2,
    gravity: Vec2,
    n: u32,
)
    ensures
        trajectory_spec(mouse, launcher, scale, gravity, n).len() == n,
{
}

/// Scroll floor: the dot count never goes below zero. A downward scroll
/// never raises the count, and at zero it leaves the count at zero, however
/// often it is repeated.
pub proof fn lemma_scroll_floor(count: u32, scroll_delta_y: i64)
    ensures
        scroll_count(count, scroll_delta_y) >= 0,
        scroll_delta_y >= 0 ==> scroll_count(count, scroll_delta_y) <= count,
        scroll_delta_y >= 0 && count == 0 ==> scroll_count(count, scroll_delta_y) == 0,
{
}

} // verus!
