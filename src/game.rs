//! The host's entry points: `init` once, `update` once per tick, and `draw`
//! (in `render`) once per frame; and the laws that a tick obeys.
use vstd::prelude::*;
use crate::control::{Buttons, Input, steered_y, tracked_y, placed, steer, track, place};
use crate::fixed::clamp_spec;
use crate::physics::{ball_step, distance_sq, integrate, exits_left, exits_right, serve_leftward, touches, move_ball};
use crate::state::{Ball, GameState, Paddle, serve_spec, BALL_RADIUS, BALL_SPEED, PADDLE_HEIGHT, PADDLE_MAX_Y, PADDLE_WIDTH};

verus! {

/// The state after one tick: the ball moves first, then each paddle is steered
/// (the right one by the second player or by following the moved ball) and
/// clamped to the screen.
pub open spec fn next_state(s: GameState, input: Input) -> GameState {
    let ball = ball_step(s.ball, s.left, s.right);
    let right_y = if input.two_players {
        steered_y(s.right.y as int, input.player_two)
    } else {
        tracked_y(s.right.y as int, ball.y as int)
    };
    GameState {
        ball,
        left: placed(s.left, steered_y(s.left.y as int, input.player_one)),
        right: placed(s.right, right_y),
        ..s
    }
}

/// Sets the colors that the ball and the two paddles are drawn in.
pub fn init(state: &mut GameState, ball_color: i32, left_color: i32, right_color: i32)
    ensures
        *final(state) == (GameState { ball_color, left_color, right_color, ..*old(state) }),
{
    state.ball_color = ball_color;
    state.left_color = left_color;
    state.right_color = right_color;
}

/// Advances the game by one tick.
pub fn update(state: &mut GameState, input: &Input)
    requires
        old(state).wf(),
    ensures
        *final(state) == next_state(*old(state), *input),
        final(state).wf(),
{
    move_ball(&mut state.ball, &state.left, &state.right);
    let left_y = steer(state.left.y, input.player_one);
    place(&mut state.left, left_y);
    let right_y = if input.two_players {
        steer(state.right.y, input.player_two)
    } else {
        track(state.right.y, state.ball.y)
    };
    place(&mut state.right, right_y);
}

/// The ball's speed never changes: both velocity components keep their
/// magnitude through every tick; only their signs flip.
pub proof fn ball_speed_is_constant(s: GameState, input: Input)
    requires
        s.wf(),
    ensures
        next_state(s, input).ball.x_vel == BALL_SPEED || next_state(s, input).ball.x_vel
            == -BALL_SPEED,
        next_state(s, input).ball.y_vel == BALL_SPEED || next_state(s, input).ball.y_vel
            == -BALL_SPEED,
        next_state(s, input).wf(),
{
}

/// After any tick each paddle lies between the top and the bottom of the screen.
pub proof fn paddles_stay_on_screen(s: GameState, input: Input)
    ensures
        0 <= next_state(s, input).left.y <= PADDLE_MAX_Y,
        0 <= next_state(s, input).right.y <= PADDLE_MAX_Y,
{
}

/// A ball whose leading edge passes the right side is served anew from the
/// center, moving left.
pub proof fn right_exit_serves_leftward(s: GameState, input: Input)
    requires
        s.wf(),
        exits_right(integrate(s.ball)),
    ensures
        next_state(s, input).ball == serve_leftward(),
{
    far_from_paddle(serve_leftward(), s.left);
}

/// A ball whose trailing edge passes the left side is served anew from the
/// center exactly as at the start, moving right.
pub proof fn left_exit_serves_rightward(s: GameState, input: Input)
    requires
        s.wf(),
        exits_left(integrate(s.ball)),
    ensures
        next_state(s, input).ball == serve_spec(),
{
    far_from_paddle(serve_spec(), s.right);
}

/// A ball at least a radius away horizontally from a paddle's sides does not touch it.
proof fn far_from_paddle(b: Ball, p: Paddle)
    requires
        b.x + BALL_RADIUS * 100 <= p.x || p.x + (PADDLE_WIDTH + BALL_RADIUS) * 100 <= b.x,
    ensures
        !touches(b, p),
{
    let cx = clamp_spec(b.x as int, p.x as int, p.x + PADDLE_WIDTH * 100);
    let cy = clamp_spec(b.y as int, p.y as int, p.y + PADDLE_HEIGHT * 100);
    let dx = b.x - cx;
    let dy = b.y - cy;
    assert(dx * dx >= 160000) by (nonlinear_arith)
        requires
            dx >= 400 || dx <= -400,
    ;
    assert(dy * dy >= 0) by (nonlinear_arith);
}

/// Contact is strict: a ball level with a paddle's top-left corner and to its
/// left touches the paddle exactly when the corner is nearer than the radius.
pub proof fn contact_is_strict(b: Ball, p: Paddle)
    requires
        b.y == p.y,
        b.x <= p.x,
    ensures
        touches(b, p) <==> p.x - b.x < BALL_RADIUS * 100,
{
    let d = p.x - b.x;
    let e = b.x - p.x;
    assert(e * e == d * d) by (nonlinear_arith)
        requires
            e == -d,
    ;
    assert(distance_sq(b, p) == d * d);
    assert(d * d < 160000 <==> d < 400) by (nonlinear_arith)
        requires
            d >= 0,
    ;
}

/// With two players and no button held, a tick leaves both paddles where they
/// are, so a second such tick leaves them where the first one did.
pub proof fn idle_ticks_keep_paddles(s: GameState, input: Input)
    requires
        s.wf(),
        input.two_players,
        input.player_one == (Buttons { up: false, down: false }),
        input.player_two == (Buttons { up: false, down: false }),
    ensures
        next_state(s, input).left == s.left,
        next_state(s, input).right == s.right,
        next_state(next_state(s, input), input).left == next_state(s, input).left,
        next_state(next_state(s, input), input).right == next_state(s, input).right,
{
    ball_speed_is_constant(s, input);
}

} // verus!
