use paddle_game::control::{track, steer, Buttons, Input};
use paddle_game::fixed::to_pixels;
use paddle_game::physics::intersects;
use paddle_game::render::DrawCommand;
use paddle_game::state::{Ball, GameState, Paddle, BALL_SPEED, PADDLE_MAX_Y};
use paddle_game::{draw, init, update};

const IDLE: Buttons = Buttons { up: false, down: false };
const UP: Buttons = Buttons { up: true, down: false };
const DOWN: Buttons = Buttons { up: false, down: true };

fn two_players_idle() -> Input {
    Input { player_one: IDLE, player_two: IDLE, two_players: true }
}

fn one_player_idle() -> Input {
    Input { player_one: IDLE, player_two: IDLE, two_players: false }
}

fn with_ball(x: i32, y: i32, x_vel: i32, y_vel: i32) -> GameState {
    let mut s = GameState::new();
    s.ball = Ball { x, y, x_vel, y_vel };
    s
}

#[test]
fn initial_state() {
    let s = GameState::new();
    assert_eq!(s.ball, Ball { x: 16000, y: 9000, x_vel: 75, y_vel: 75 });
    assert_eq!(s.left, Paddle { x: 1000, y: 5800 });
    assert_eq!(s.right, Paddle { x: 30400, y: 5800 });
}

#[test]
fn init_sets_colors_only() {
    let mut s = GameState::new();
    init(&mut s, 7, 8, 9);
    assert_eq!((s.ball_color, s.left_color, s.right_color), (7, 8, 9));
    assert_eq!(s.ball, Ball::new());
    assert_eq!(s.left, Paddle::new(1000));
}

#[test]
fn ball_integrates_by_velocity() {
    let mut s = GameState::new();
    update(&mut s, &two_players_idle());
    assert_eq!(s.ball, Ball { x: 16075, y: 9075, x_vel: 75, y_vel: 75 });
}

#[test]
fn leading_edge_at_width_is_not_an_exit() {
    // 316.75 truncates to 316, so the leading edge is at 320, not past it.
    let mut s = with_ball(31600, 9000, 75, 75);
    update(&mut s, &two_players_idle());
    assert_eq!(s.ball, Ball { x: 31675, y: 9075, x_vel: 75, y_vel: 75 });
}

#[test]
fn right_exit_serves_leftward() {
    let mut s = with_ball(31675, 9075, 75, 75);
    update(&mut s, &two_players_idle());
    assert_eq!(s.ball, Ball { x: 16000, y: 9000, x_vel: -75, y_vel: 75 });
}

#[test]
fn right_exit_after_two_ticks_from_316() {
    let mut s = with_ball(31600, 9000, 75, 75);
    update(&mut s, &two_players_idle());
    update(&mut s, &two_players_idle());
    assert_eq!(s.ball, Ball { x: 16000, y: 9000, x_vel: -75, y_vel: 75 });
}

#[test]
fn left_exit_serves_rightward() {
    let mut s = with_ball(450, 3000, -75, -75);
    update(&mut s, &two_players_idle());
    assert_eq!(s.ball, Ball { x: 16000, y: 9000, x_vel: 75, y_vel: 75 });
}

#[test]
fn top_bounce_flips_y_velocity() {
    let mut s = with_ball(16000, 500, 75, -75);
    update(&mut s, &two_players_idle());
    assert_eq!(s.ball, Ball { x: 16075, y: 425, x_vel: 75, y_vel: 75 });
}

#[test]
fn bottom_bounce_flips_y_velocity() {
    let mut s = with_ball(16000, 17550, 75, 75);
    update(&mut s, &two_players_idle());
    assert_eq!(s.ball, Ball { x: 16075, y: 17625, x_vel: 75, y_vel: -75 });
}

#[test]
fn left_paddle_turns_ball_back() {
    let mut s = with_ball(2050, 6000, -75, 75);
    update(&mut s, &two_players_idle());
    assert_eq!(s.ball, Ball { x: 1975, y: 6075, x_vel: 75, y_vel: 75 });
}

#[test]
fn right_paddle_turns_ball_back() {
    let mut s = with_ball(29950, 6000, 75, 75);
    update(&mut s, &two_players_idle());
    assert_eq!(s.ball, Ball { x: 30025, y: 6075, x_vel: -75, y_vel: 75 });
}

#[test]
fn ball_away_from_paddle_keeps_direction() {
    let mut s = with_ball(2500, 6000, -75, 75);
    update(&mut s, &two_players_idle());
    assert_eq!(s.ball.x_vel, -75);
}

#[test]
fn contact_at_corner_is_strict() {
    let p = Paddle { x: 1000, y: 5800 };
    let at_radius = Ball { x: 600, y: 5800, x_vel: 75, y_vel: 75 };
    let inside = Ball { x: 601, y: 5800, x_vel: 75, y_vel: 75 };
    assert!(!intersects(&at_radius, &p));
    assert!(intersects(&inside, &p));
}

#[test]
fn contact_at_diagonal_corner() {
    let p = Paddle { x: 1000, y: 5800 };
    // 240 and 320 hundredths past the bottom-right corner: exactly the radius.
    let at_radius = Ball { x: 1840, y: 9320, x_vel: 75, y_vel: 75 };
    let inside = Ball { x: 1839, y: 9320, x_vel: 75, y_vel: 75 };
    assert!(!intersects(&at_radius, &p));
    assert!(intersects(&inside, &p));
}

#[test]
fn opponent_moves_up_toward_ball() {
    let mut s = with_ball(16000, 5000, 75, 75);
    s.right.y = 7400;
    update(&mut s, &one_player_idle());
    assert_eq!(s.right.y, 7300);
}

#[test]
fn opponent_moves_down_toward_ball() {
    let mut s = with_ball(16000, 12000, 75, 75);
    s.right.y = 5000;
    update(&mut s, &one_player_idle());
    assert_eq!(s.right.y, 5100);
}

#[test]
fn opponent_holds_when_ball_level() {
    let mut s = with_ball(16000, 6000, 75, 75);
    s.right.y = 5000;
    update(&mut s, &one_player_idle());
    assert_eq!(s.right.y, 5000);
}

#[test]
fn second_player_steers_right_paddle() {
    let mut s = GameState::new();
    let input = Input { player_one: IDLE, player_two: DOWN, two_players: true };
    update(&mut s, &input);
    assert_eq!(s.right.y, 5900);
    assert_eq!(s.left.y, 5800);
}

#[test]
fn first_player_steers_left_paddle() {
    let mut s = GameState::new();
    let input = Input { player_one: UP, player_two: IDLE, two_players: true };
    update(&mut s, &input);
    assert_eq!(s.left.y, 5700);
}

#[test]
fn both_buttons_cancel() {
    let both = Buttons { up: true, down: true };
    assert_eq!(steer(5800, both), 5800);
    assert_eq!(steer(5800, UP), 5700);
    assert_eq!(steer(5800, DOWN), 5900);
}

#[test]
fn track_greedy_policy() {
    assert_eq!(track(7400, 5075), 7300);
    assert_eq!(track(1000, 4300), 1100);
    assert_eq!(track(1000, 4200), 1000);
    assert_eq!(track(1000, 1000), 1000);
}

#[test]
fn paddles_clamp_to_screen() {
    let mut s = GameState::new();
    s.left.y = 0;
    s.right.y = PADDLE_MAX_Y;
    let input = Input { player_one: UP, player_two: DOWN, two_players: true };
    update(&mut s, &input);
    assert_eq!(s.left.y, 0);
    assert_eq!(s.right.y, 14800);
}

#[test]
fn idle_ticks_keep_paddles() {
    let mut s = GameState::new();
    s.left.y = 300;
    s.right.y = 14000;
    update(&mut s, &two_players_idle());
    let (left, right) = (s.left, s.right);
    let ball = s.ball;
    update(&mut s, &two_players_idle());
    assert_eq!(s.left, left);
    assert_eq!(s.right, right);
    assert_eq!(s.ball, Ball { x: ball.x + 75, y: ball.y + 75, x_vel: 75, y_vel: 75 });
}

#[test]
fn long_play_keeps_speed_and_bounds() {
    let mut s = GameState::new();
    for tick in 0..5000 {
        let input = Input {
            player_one: if tick % 7 < 3 { UP } else { DOWN },
            player_two: IDLE,
            two_players: false,
        };
        update(&mut s, &input);
        assert!(s.ball.x_vel == BALL_SPEED || s.ball.x_vel == -BALL_SPEED);
        assert!(s.ball.y_vel == BALL_SPEED || s.ball.y_vel == -BALL_SPEED);
        assert!(0 <= s.left.y && s.left.y <= PADDLE_MAX_Y);
        assert!(0 <= s.right.y && s.right.y <= PADDLE_MAX_Y);
    }
}

#[test]
fn draw_emits_frame_in_order() {
    let mut s = GameState::new();
    init(&mut s, 3, 4, 5);
    s.ball = Ball { x: 12375, y: 4599, x_vel: 75, y_vel: 75 };
    s.left.y = 150;
    let frame = draw(&s);
    assert_eq!(
        frame,
        vec![
            DrawCommand::Clear { color: 0 },
            DrawCommand::Circle { color: 3, x: 123, y: 45, radius: 4 },
            DrawCommand::Rect { color: 4, x: 10, y: 1, width: 6, height: 32 },
            DrawCommand::Rect { color: 5, x: 304, y: 58, width: 6, height: 32 },
        ]
    );
    assert_eq!(draw(&s), frame);
}

#[test]
fn pixels_truncate_toward_zero() {
    assert_eq!(to_pixels(31675), 316);
    assert_eq!(to_pixels(199), 1);
    assert_eq!(to_pixels(-150), -1);
    assert_eq!(to_pixels(-99), 0);
}

#[test]
fn well_formed_states() {
    assert!(GameState::new().is_well_formed());
    assert!(with_ball(31600, 9000, 75, 75).is_well_formed());
    assert!(!with_ball(16000, 9000, 75, 100).is_well_formed());
    assert!(!with_ball(16000, 450, 75, -75).is_well_formed());
    assert!(!with_ball(31700, 9000, 75, 75).is_well_formed());
    let mut s = GameState::new();
    s.left.y = -1;
    assert!(!s.is_well_formed());
}
