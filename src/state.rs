//! The game's data: one ball, two paddles, and the colors they are drawn in.
use vstd::prelude::*;

verus! {

/// Screen width in pixels.
pub const SCREEN_WIDTH: i32 = 320;

/// Screen height in pixels.
pub const SCREEN_HEIGHT: i32 = 180;

/// Paddle width in pixels.
pub const PADDLE_WIDTH: i32 = 6;

/// Paddle height in pixels.
pub const PADDLE_HEIGHT: i32 = 32;

/// Distance in pixels between a paddle and its side of the screen.
pub const PADDLE_MARGIN: i32 = 10;

/// Paddle displacement per tick, in hundredths of a pixel.
pub const PADDLE_SPEED: i32 = 100;

/// Ball radius in pixels.
pub const BALL_RADIUS: i32 = 4;

/// Magnitude of each ball velocity component, in hundredths of a pixel per tick.
pub const BALL_SPEED: i32 = 75;

/// Left paddle's x, in hundredths of a pixel.
pub const LEFT_PADDLE_X: i32 = PADDLE_MARGIN * 100;

/// Right paddle's x, in hundredths of a pixel.
pub const RIGHT_PADDLE_X: i32 = (SCREEN_WIDTH - (PADDLE_MARGIN + PADDLE_WIDTH)) * 100;

/// Paddle y at start (half the screen height less a paddle), in hundredths of a pixel.
pub const PADDLE_START_Y: i32 = SCREEN_HEIGHT * 50 - PADDLE_HEIGHT * 100;

/// Largest paddle y, in hundredths of a pixel: the paddle's bottom touches the screen's.
pub const PADDLE_MAX_Y: i32 = (SCREEN_HEIGHT - PADDLE_HEIGHT) * 100;

/// Ball x at a serve (the middle of the screen), in hundredths of a pixel.
pub const SERVE_X: i32 = SCREEN_WIDTH * 50;

/// Ball y at a serve (the middle of the screen), in hundredths of a pixel.
pub const SERVE_Y: i32 = SCREEN_HEIGHT * 50;

/// Palette slot of the ball's color.
pub const BALL_PALETTE_SLOT: i32 = 43;

/// Palette slot of the left paddle's color.
pub const LEFT_PADDLE_PALETTE_SLOT: i32 = 31;

/// Palette slot of the right paddle's color.
pub const RIGHT_PADDLE_PALETTE_SLOT: i32 = 15;

/// Color the screen is cleared to.
pub const BACKGROUND_COLOR: i32 = 0;

/// A paddle; coordinates in hundredths of a pixel, of its top-left corner.
#[derive(Clone, Copy, Debug, PartialEq, Eq, Structural)]
pub struct Paddle {
    pub x: i32,
    pub y: i32,
}

/// The ball; coordinates of its center and velocity in hundredths of a pixel.
#[derive(Clone, Copy, Debug, PartialEq, Eq, Structural)]
pub struct Ball {
    pub x: i32,
    pub y: i32,
    pub x_vel: i32,
    pub y_vel: i32,
}

/// The whole game: the ball, the left (player) and right (opponent) paddles, and colors.
#[derive(Clone, Copy, Debug, PartialEq, Eq, Structural)]
pub struct GameState {
    pub ball: Ball,
    pub left: Paddle,
    pub right: Paddle,
    pub ball_color: i32,
    pub left_color: i32,
    pub right_color: i32,
}

/// The ball as it is served: centered, moving right and down.
pub open spec fn serve_spec() -> Ball {
    Ball { x: SERVE_X, y: SERVE_Y, x_vel: BALL_SPEED, y_vel: BALL_SPEED }
}

/// A paddle at its starting height.
pub open spec fn paddle_at_start(x: i32) -> Paddle {
    Paddle { x, y: PADDLE_START_Y }
}

impl Ball {
    /// A ball as it is served.
    pub fn new() -> (r: Ball)
        ensures
            r == serve_spec(),
    {
        Ball { x: SERVE_X, y: SERVE_Y, x_vel: BALL_SPEED, y_vel: BALL_SPEED }
    }

    /// Both velocity components have the ball's fixed speed; only their signs change.
    pub open spec fn speed_ok(self) -> bool {
        &&& (self.x_vel == BALL_SPEED || self.x_vel == -BALL_SPEED)
        &&& (self.y_vel == BALL_SPEED || self.y_vel == -BALL_SPEED)
    }

    /// The positions a ball can hold between ticks: horizontally inside the
    /// side walls, vertically within one step of the top and bottom bounds and,
    /// when past one of them, already headed back.
    pub open spec fn wf(self) -> bool {
        &&& self.speed_ok()
        &&& BALL_RADIUS * 100 <= self.x < (SCREEN_WIDTH - BALL_RADIUS + 1) * 100
        &&& (BALL_RADIUS + 1) * 100 - BALL_SPEED <= self.y
        &&& self.y < (SCREEN_HEIGHT - BALL_RADIUS) * 100 + BALL_SPEED
        &&& self.y < (BALL_RADIUS + 1) * 100 ==> self.y_vel == BALL_SPEED
        &&& self.y >= (SCREEN_HEIGHT - BALL_RADIUS) * 100 ==> self.y_vel == -BALL_SPEED
    }
}

impl Paddle {
    /// A paddle at its starting height.
    pub fn new(x: i32) -> (r: Paddle)
        ensures
            r == paddle_at_start(x),
    {
        Paddle { x, y: PADDLE_START_Y }
    }

    /// The paddle lies between the top and the bottom of the screen.
    pub open spec fn in_bounds(self) -> bool {
        0 <= self.y <= PADDLE_MAX_Y
    }
}

impl GameState {
    /// The game before the first tick; colors are set by `init`.
    pub open spec fn initial_spec() -> GameState {
        GameState {
            ball: serve_spec(),
            left: paddle_at_start(LEFT_PADDLE_X),
            right: paddle_at_start(RIGHT_PADDLE_X),
            ball_color: 0,
            left_color: 0,
            right_color: 0,
        }
    }

    /// The game before the first tick.
    pub fn new() -> (r: GameState)
        ensures
            r == GameState::initial_spec(),
            r.wf(),
    {
        GameState {
            ball: Ball::new(),
            left: Paddle::new(LEFT_PADDLE_X),
            right: Paddle::new(RIGHT_PADDLE_X),
            ball_color: 0,
            left_color: 0,
            right_color: 0,
        }
    }

    /// Whether the state is one the game can be in between ticks.
    pub fn is_well_formed(&self) -> (r: bool)
        ensures
            r == self.wf(),
    {
        let b = &self.ball;
        let speed_ok = (b.x_vel == BALL_SPEED || b.x_vel == -BALL_SPEED) && (b.y_vel
            == BALL_SPEED || b.y_vel == -BALL_SPEED);
        let x_ok = BALL_RADIUS * 100 <= b.x && b.x < (SCREEN_WIDTH - BALL_RADIUS + 1) * 100;
        let y_ok = (BALL_RADIUS + 1) * 100 - BALL_SPEED <= b.y && b.y < (SCREEN_HEIGHT
            - BALL_RADIUS) * 100 + BALL_SPEED;
        let top_ok = b.y >= (BALL_RADIUS + 1) * 100 || b.y_vel == BALL_SPEED;
        let bottom_ok = b.y < (SCREEN_HEIGHT - BALL_RADIUS) * 100 || b.y_vel == -BALL_SPEED;
        let paddles_ok = self.left.x == LEFT_PADDLE_X && self.right.x == RIGHT_PADDLE_X && 0
            <= self.left.y && self.left.y <= PADDLE_MAX_Y && 0 <= self.right.y && self.right.y
            <= PADDLE_MAX_Y;
        speed_ok && x_ok && y_ok && top_ok && bottom_ok && paddles_ok
    }

    /// A state the game can be in between ticks: paddles at their fixed x and
    /// within the screen, ball well formed.
    pub open spec fn wf(self) -> bool {
        &&& self.ball.wf()
        &&& self.left.x == LEFT_PADDLE_X
        &&& self.right.x == RIGHT_PADDLE_X
        &&& self.left.in_bounds()
        &&& self.right.in_bounds()
    }
}

} // verus!
