use idle_arcade::game_handler::Game;
use idle_arcade::games::pong::{
    centered_field, draw_paddle, paddle_rect, Paddle, Pong, PongSettings, PongState,
};
use idle_arcade::motion::{Point, Rect};
use idle_arcade::render::{Color, DrawCommand, Input};
use rand::rngs::StdRng;
use rand::SeedableRng;
use std::time::Duration;

const SCREEN: (i32, i32) = (1920, 1080);

fn settings() -> PongSettings {
    PongSettings { ball_speed: 300_000, paddle_speed: 200_000, ai_paddle_speed: 150_000 }
}

fn pong(seed: u64) -> Pong {
    assert!(Pong::screen_fits(SCREEN));
    Pong::new(SCREEN, &settings(), StdRng::seed_from_u64(seed))
}

fn keys(up: bool, down: bool) -> Input {
    Input { pointer_x: 0, pointer_y: 0, up, down, left_button: false }
}

#[test]
fn screens_need_room_for_a_field() {
    assert!(Pong::screen_fits((1920, 1080)));
    assert!(Pong::screen_fits((1002, 502)));
    assert!(!Pong::screen_fits((1001, 502)));
    assert!(!Pong::screen_fits((1002, 501)));
    assert!(!Pong::screen_fits((-1920, 1080)));
    assert!(!Pong::screen_fits((0, 0)));
}

#[test]
fn the_first_round_starts_in_the_middle() {
    let game = pong(1);
    let state = game.current();
    assert_eq!(state.game_size, Rect { x: 560_000, y: 340_000, width: 800_000, height: 400_000 });
    assert_eq!(state.ball_pos, Point { x: 960_000, y: 540_000 });
    assert_eq!(state.ball_speed, Point { x: 360_000, y: 300_000 });
    assert_eq!(state.ball_size, 12_000);
    assert_eq!(state.paddle1, Paddle { length: 100_000, offset: 0, width: 20_000 });
    assert_eq!(state.paddle2, Paddle { length: 100_000, offset: 0, width: 20_000 });
    assert_eq!((state.paddle_speed, state.ai_paddle_speed), (200_000, 150_000));
    assert!(!state.finished);
    assert!(!state.lost);
    assert_eq!(game.get_info(), "Pong");
}

#[test]
fn helpers_lay_out_fields_and_paddles() {
    assert_eq!(
        centered_field((1921, 1081), 801, 401),
        Rect { x: 560_000, y: 340_000, width: 801_000, height: 401_000 }
    );
    let field = Rect { x: 560_000, y: 340_000, width: 800_000, height: 400_000 };
    let paddle = Paddle { length: 100_000, offset: 30_000, width: 20_000 };
    assert_eq!(
        paddle_rect(field, paddle, 575_000),
        Rect { x: 575_000, y: 520_000, width: 20_000, height: 100_000 }
    );
    assert_eq!(
        draw_paddle(field, paddle, 575),
        DrawCommand::Rectangle { x: 575, y: 520, width: 20, height: 100, color: Color::Black }
    );
}

#[test]
fn one_step_moves_ball_and_machine() {
    let mut game = pong(1);
    game.logic(keys(false, false), Duration::from_millis(10));
    let state = game.current();
    assert_eq!(state.ball_pos, Point { x: 963_600, y: 543_000 });
    assert_eq!(state.ball_speed, Point { x: 360_000, y: 300_000 });
    assert_eq!(state.paddle1.offset, 0);
    assert_eq!(state.paddle2.offset, 1_500);
    assert!(!state.finished);
    assert_eq!(game.is_finished(), None);
}

#[test]
fn the_keys_move_the_left_paddle() {
    let mut game = pong(1);
    game.logic(keys(true, false), Duration::from_millis(10));
    assert_eq!(game.current().paddle1.offset, -2_000);
    game.logic(keys(false, true), Duration::from_millis(10));
    assert_eq!(game.current().paddle1.offset, 0);
    game.logic(keys(true, true), Duration::from_millis(10));
    assert_eq!(game.current().paddle1.offset, -2_000);
}

#[test]
fn the_paddle_stops_at_the_end_of_the_field() {
    let mut game = pong(1);
    let mut state = game.current();
    state.paddle1.offset = -150_000;
    state.ball_speed = Point { x: 0, y: 0 };
    game.set_state(state);
    game.logic(keys(true, false), Duration::from_millis(10));
    assert_eq!(game.current().paddle1.offset, -150_000);
    state.paddle1.offset = 150_000;
    game.set_state(state);
    game.logic(keys(false, true), Duration::from_millis(10));
    assert_eq!(game.current().paddle1.offset, 150_000);
    game.logic(keys(true, false), Duration::from_millis(10));
    assert_eq!(game.current().paddle1.offset, 148_000);
}

#[test]
fn the_ball_turns_round_at_top_and_bottom() {
    let mut state = pong(1).current();
    state.ball_pos = Point { x: 960_000, y: 352_000 };
    state.ball_speed = Point { x: 0, y: -300_000 };
    state.pong_ball(0);
    assert_eq!(state.ball_speed, Point { x: 0, y: 300_000 });
    assert!(!state.finished);
    state.ball_pos = Point { x: 960_000, y: 728_000 };
    state.pong_ball(0);
    assert_eq!(state.ball_speed, Point { x: 0, y: -300_000 });
}

#[test]
fn a_paddle_sends_the_ball_back() {
    let mut state = pong(1).current();
    state.ball_pos = Point { x: 600_000, y: 540_000 };
    state.ball_speed = Point { x: -360_000, y: 0 };
    state.pong_ball(0);
    assert_eq!(state.ball_speed.x, 300_000);
    assert!(!state.finished);
    state.ball_pos = Point { x: 1_320_000, y: 540_000 };
    state.pong_ball(0);
    assert_eq!(state.ball_speed.x, -300_000);
    assert!(!state.finished);
}

#[test]
fn the_wall_behind_the_player_loses_the_round() {
    let mut state = pong(1).current();
    state.ball_pos = Point { x: 572_000, y: 360_000 };
    state.ball_speed = Point { x: -360_000, y: 0 };
    state.pong_ball(0);
    assert!(state.finished);
    assert!(state.lost);
}

#[test]
fn the_wall_behind_the_machine_wins_the_round() {
    let mut state = pong(1).current();
    state.lost = true;
    state.ball_pos = Point { x: 1_348_000, y: 360_000 };
    state.ball_speed = Point { x: 360_000, y: 0 };
    state.pong_ball(0);
    assert!(state.finished);
    assert!(!state.lost);
}

#[test]
fn a_reported_round_is_not_reported_again() {
    for seed in 0..10 {
        let mut game = pong(seed);
        let mut state = game.current();
        state.ball_pos = Point { x: 572_000, y: 360_000 };
        state.ball_speed = Point { x: -360_000, y: 5 };
        state.paddle1.offset = 7_000;
        state.paddle2.offset = -9_000;
        game.set_state(state);
        game.logic(keys(false, false), Duration::ZERO);
        assert_eq!(game.is_finished(), Some(true));
        assert_eq!(game.is_finished(), None);
        let next = game.current();
        assert!(!next.finished);
        assert_eq!(next.ball_pos, Point { x: 960_000, y: 540_000 });
        assert_eq!(next.ball_speed, Point { x: -360_000, y: 5 });
        assert_eq!(next.paddle1.offset, 0);
        assert_eq!(next.paddle2.offset, 0);
        let width = next.game_size.width / 1000;
        let height = next.game_size.height / 1000;
        assert!((800..1536).contains(&width));
        assert!((400..864).contains(&height));
        assert_eq!(next.game_size, centered_field(SCREEN, width, height));
    }
}

#[test]
fn reset_centres_the_ball_in_the_old_field() {
    let mut state = pong(1).current();
    state.finished = true;
    state.lost = true;
    state.paddle1.offset = 5;
    state.reset(SCREEN, 1000, 500);
    assert_eq!(state.ball_pos, Point { x: 960_000, y: 540_000 });
    assert_eq!(state.game_size, Rect { x: 460_000, y: 290_000, width: 1_000_000, height: 500_000 });
    assert_eq!(state.paddle1, Paddle { length: 100_000, offset: 0, width: 20_000 });
    assert!(!state.finished);
    assert!(state.lost);
}

#[test]
fn the_frame_shows_field_ball_and_paddles() {
    let game = pong(1);
    let expected = vec![
        DrawCommand::Rectangle { x: 560, y: 340, width: 800, height: 400, color: Color::DarkGray },
        DrawCommand::Circle { x: 960, y: 540, radius_tenths: 120, color: Color::Black },
        DrawCommand::Rectangle { x: 575, y: 490, width: 20, height: 100, color: Color::Black },
        DrawCommand::Rectangle { x: 1325, y: 490, width: 20, height: 100, color: Color::Black },
    ];
    assert_eq!(game.draw(), expected);
    let state: PongState = game.current();
    assert_eq!(state.draw_frame(), expected);
}
