//! One tick of ball motion: integration, side-wall serves, top and bottom
//! bounces, and paddle contact.
use vstd::prelude::*;
use crate::fixed::{trunc_pixels, clamp_spec};
use crate::fixed::to_pixels;
use crate::state::{Ball, Paddle, serve_spec, BALL_RADIUS, BALL_SPEED, PADDLE_WIDTH, PADDLE_HEIGHT, SCREEN_WIDTH, SCREEN_HEIGHT};

verus! {

/// The ball after moving by its velocity for one tick.
pub open spec fn integrate(b: Ball) -> Ball {
    Ball { x: (b.x + b.x_vel) as i32, y: (b.y + b.y_vel) as i32, ..b }
}

/// The ball's leading edge, in whole pixels, is past the right side of the screen.
pub open spec fn exits_right(b: Ball) -> bool {
    trunc_pixels(b.x as int) + BALL_RADIUS > SCREEN_WIDTH
}

/// The ball's trailing edge, in whole pixels, is past the left side of the screen.
pub open spec fn exits_left(b: Ball) -> bool {
    trunc_pixels(b.x as int) - BALL_RADIUS < 0
}

/// The ball's top edge is above the screen, or its bottom edge below it (each
/// with a one-pixel inset).
pub open spec fn crosses_top_or_bottom(b: Ball) -> bool {
    ||| trunc_pixels(b.y as int) - (BALL_RADIUS + 1) < 0
    ||| trunc_pixels(b.y as int) + BALL_RADIUS > SCREEN_HEIGHT - 1
}

/// The ball as served after it left on the right: centered, moving left.
pub open spec fn serve_leftward() -> Ball {
    Ball { x_vel: (-BALL_SPEED) as i32, ..serve_spec() }
}

/// The ball after integration, the side-wall serves and the top and bottom bounce.
pub open spec fn after_walls(b: Ball) -> Ball {
    let m = integrate(b);
    let r = if exits_right(m) { serve_leftward() } else { m };
    let l = if exits_left(r) { serve_spec() } else { r };
    if crosses_top_or_bottom(l) {
        Ball { y_vel: (-l.y_vel) as i32, ..l }
    } else {
        l
    }
}

/// Squared distance between the ball's center and the nearest point of the
/// paddle's rectangle, in squared hundredths of a pixel.
pub open spec fn distance_sq(b: Ball, p: Paddle) -> int {
    let cx = clamp_spec(b.x as int, p.x as int, p.x + PADDLE_WIDTH * 100);
    let cy = clamp_spec(b.y as int, p.y as int, p.y + PADDLE_HEIGHT * 100);
    (b.x - cx) * (b.x - cx) + (b.y - cy) * (b.y - cy)
}

/// The ball's circle overlaps the paddle's rectangle (strictly).
pub open spec fn touches(b: Ball, p: Paddle) -> bool {
    distance_sq(b, p) < (BALL_RADIUS * 100) * (BALL_RADIUS * 100)
}

/// The paddle the ball is headed toward: the left one when it moves left.
pub open spec fn facing_paddle(b: Ball, left: Paddle, right: Paddle) -> Paddle {
    if b.x_vel < 0 {
        left
    } else {
        right
    }
}

/// The ball after one tick, given the two paddles.
pub open spec fn ball_step(b: Ball, left: Paddle, right: Paddle) -> Ball {
    let w = after_walls(b);
    if touches(w, facing_paddle(w, left, right)) {
        Ball { x_vel: (-w.x_vel) as i32, ..w }
    } else {
        w
    }
}

/// Whether the ball's circle overlaps the paddle's rectangle: the squared
/// distance from the ball's center to the nearest point of the rectangle is
/// less than the squared radius.
pub fn intersects(ball: &Ball, paddle: &Paddle) -> (r: bool)
    ensures
        r == touches(*ball, *paddle),
{
    let bx = ball.x as i128;
    let by = ball.y as i128;
    let left = paddle.x as i128;
    let top = paddle.y as i128;
    let right = left + (PADDLE_WIDTH as i128) * 100;
    let bottom = top + (PADDLE_HEIGHT as i128) * 100;
    let closest_x = if bx < left {
        left
    } else if bx > right {
        right
    } else {
        bx
    };
    let closest_y = if by < top {
        top
    } else if by > bottom {
        bottom
    } else {
        by
    };
    let dx = bx - closest_x;
    let dy = by - closest_y;
    assert(0 <= dx * dx <= 0x1_0000_0000_0000_0000_0000_0000) by (nonlinear_arith)
        requires
            -0x1_0000_0000_0000 <= dx <= 0x1_0000_0000_0000,
    ;
    assert(0 <= dy * dy <= 0x1_0000_0000_0000_0000_0000_0000) by (nonlinear_arith)
        requires
            -0x1_0000_0000_0000 <= dy <= 0x1_0000_0000_0000,
    ;
    let radius = (BALL_RADIUS as i128) * 100;
    assert(radius == 400);
    dx * dx + dy * dy < radius * radius
}

/// Advances the ball by one tick: moves it, serves it anew when it leaves by a
/// side, bounces it off the top and bottom, and turns it back when it touches
/// the paddle it is headed toward.
pub fn move_ball(ball: &mut Ball, left: &Paddle, right: &Paddle)
    requires
        old(ball).wf(),
    ensures
        *final(ball) == ball_step(*old(ball), *left, *right),
        final(ball).wf(),
{
    ball.x = ball.x + ball.x_vel;
    ball.y = ball.y + ball.y_vel;
    if to_pixels(ball.x) + BALL_RADIUS > SCREEN_WIDTH {
        *ball = Ball::new();
        ball.x_vel = -ball.x_vel;
    }
    if to_pixels(ball.x) - BALL_RADIUS < 0 {
        *ball = Ball::new();
    }
    let top = to_pixels(ball.y);
    if top - (BALL_RADIUS + 1) < 0 || top + BALL_RADIUS > SCREEN_HEIGHT - 1 {
        ball.y_vel = -ball.y_vel;
    }
    if ball.x_vel < 0 {
        if intersects(ball, left) {
            ball.x_vel = -ball.x_vel;
        }
    } else {
        if intersects(ball, right) {
            ball.x_vel = -ball.x_vel;
        }
    }
}

} // verus!
