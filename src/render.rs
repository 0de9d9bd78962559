//! The frame as a sequence of draw calls, read from the settled state.
use vstd::prelude::*;
use crate::fixed::{to_pixels, trunc_pixels};
use crate::state::{GameState, BACKGROUND_COLOR, BALL_RADIUS, PADDLE_HEIGHT, PADDLE_WIDTH};

verus! {

/// One call to the host's drawing primitives; coordinates in whole pixels.
#[derive(Clone, Copy, Debug, PartialEq, Eq, Structural)]
pub enum DrawCommand {
    /// Fill the whole screen.
    Clear { color: i32 },
    /// A filled circle around `(x, y)`.
    Circle { color: i32, x: i32, y: i32, radius: i32 },
    /// A filled rectangle with its top-left corner at `(x, y)`.
    Rect { color: i32, x: i32, y: i32, width: i32, height: i32 },
}

/// A paddle's rectangle, at its truncated position.
pub open spec fn paddle_rect(color: i32, x: i32, y: i32) -> DrawCommand {
    DrawCommand::Rect {
        color,
        x: trunc_pixels(x as int) as i32,
        y: trunc_pixels(y as int) as i32,
        width: PADDLE_WIDTH,
        height: PADDLE_HEIGHT,
    }
}

/// The frame for a state: clear, the ball, the left paddle, the right paddle.
pub open spec fn frame(s: GameState) -> Seq<DrawCommand> {
    seq![
        DrawCommand::Clear { color: BACKGROUND_COLOR },
        DrawCommand::Circle {
            color: s.ball_color,
            x: trunc_pixels(s.ball.x as int) as i32,
            y: trunc_pixels(s.ball.y as int) as i32,
            radius: BALL_RADIUS,
        },
        paddle_rect(s.left_color, s.left.x, s.left.y),
        paddle_rect(s.right_color, s.right.x, s.right.y),
    ]
}

/// The draw calls for one frame of the state, in the order they are issued.
pub fn draw(state: &GameState) -> (r: Vec<DrawCommand>)
    ensures
        r@ == frame(*state),
{
    let mut r: Vec<DrawCommand> = Vec::new();
    r.push(DrawCommand::Clear { color: BACKGROUND_COLOR });
    r.push(
        DrawCommand::Circle {
            color: state.ball_color,
            x: to_pixels(state.ball.x),
            y: to_pixels(state.ball.y),
            radius: BALL_RADIUS,
        },
    );
    r.push(
        DrawCommand::Rect {
            color: state.left_color,
            x: to_pixels(state.left.x),
            y: to_pixels(state.left.y),
            width: PADDLE_WIDTH,
            height: PADDLE_HEIGHT,
        },
    );
    r.push(
        DrawCommand::Rect {
            color: state.right_color,
            x: to_pixels(state.right.x),
            y: to_pixels(state.right.y),
            width: PADDLE_WIDTH,
            height: PADDLE_HEIGHT,
        },
    );
    assert(r@ =~= frame(*state));
    r
}

} // verus!
