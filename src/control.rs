//! Paddle control: player input, the reactive opponent, and the clamp to the screen.
use vstd::prelude::*;
use crate::fixed::{clamp, clamp_spec};
use crate::state::{Paddle, PADDLE_HEIGHT, PADDLE_MAX_Y, PADDLE_SPEED};

verus! {

/// The buttons one player holds during a tick.
#[derive(Clone, Copy, Debug, PartialEq, Eq, Structural)]
pub struct Buttons {
    pub up: bool,
    pub down: bool,
}

/// Everything read from the host for one tick.
#[derive(Clone, Copy, Debug, PartialEq, Eq, Structural)]
pub struct Input {
    /// Buttons of the player on the left.
    pub player_one: Buttons,
    /// Buttons of the player on the right, read only when two play.
    pub player_two: Buttons,
    /// Whether a second player steers the right paddle; otherwise it follows the ball.
    pub two_players: bool,
}

/// Paddle y after a player's buttons: up raises it, down lowers it, both cancel.
pub open spec fn steered_y(y: int, b: Buttons) -> int {
    let raised = if b.up { y - PADDLE_SPEED } else { y };
    if b.down { raised + PADDLE_SPEED } else { raised }
}

/// Paddle y after the opponent's greedy move toward the ball's height: up when
/// its top is below the ball, down when its bottom is above it, else unchanged.
pub open spec fn tracked_y(y: int, ball_y: int) -> int {
    if y > ball_y {
        y - PADDLE_SPEED
    } else if y + PADDLE_HEIGHT * 100 < ball_y {
        y + PADDLE_SPEED
    } else {
        y
    }
}

/// The paddle moved to height `y`, clamped to the screen.
pub open spec fn placed(p: Paddle, y: int) -> Paddle {
    Paddle { y: clamp_spec(y, 0, PADDLE_MAX_Y as int) as i32, ..p }
}

/// Paddle y after a player's buttons.
pub fn steer(y: i32, buttons: Buttons) -> (r: i32)
    requires
        -1_000_000 <= y <= 1_000_000,
    ensures
        r == steered_y(y as int, buttons),
{
    let mut r = y;
    if buttons.up {
        r = r - PADDLE_SPEED;
    }
    if buttons.down {
        r = r + PADDLE_SPEED;
    }
    r
}

/// Paddle y after the opponent follows the ball at height `ball_y`.
pub fn track(y: i32, ball_y: i32) -> (r: i32)
    requires
        -1_000_000 <= y <= 1_000_000,
    ensures
        r == tracked_y(y as int, ball_y as int),
{
    if y > ball_y {
        y - PADDLE_SPEED
    } else if y + PADDLE_HEIGHT * 100 < ball_y {
        y + PADDLE_SPEED
    } else {
        y
    }
}

/// Moves the paddle to height `y`, clamped to the screen.
pub fn place(paddle: &mut Paddle, y: i32)
    ensures
        *final(paddle) == placed(*old(paddle), y as int),
        final(paddle).in_bounds(),
{
    paddle.y = clamp(y, 0, PADDLE_MAX_Y);
}

} // verus!
