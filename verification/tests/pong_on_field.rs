use idle_arcade::games::pong::Paddle;
use idle_arcade::motion::{Point, Rect};
use idle_arcade::pong::Pong;
use idle_arcade::render::{Color, DrawCommand, Input};
use std::time::Duration;

fn keys(up: bool, down: bool) -> Input {
    Input { pointer_x: 0, pointer_y: 0, up, down, left_button: false }
}

fn on_field() -> Pong {
    let mut game = Pong::new();
    game.set_game_size(Rect { x: 100_000, y: 50_000, width: 800_000, height: 400_000 });
    game
}

#[test]
fn a_new_game_waits_for_its_field() {
    let game = Pong::new();
    let state = game.current();
    assert_eq!(state.ball_size, 12_000);
    assert_eq!(state.ball_pos, Point { x: 0, y: 0 });
    assert_eq!(state.ball_speed, Point { x: 300_000, y: 300_000 });
    assert_eq!(state.paddle1, Paddle { length: 100_000, offset: 0, width: 20_000 });
    assert_eq!(state.paddle2, Paddle { length: 100_000, offset: 0, width: 20_000 });
    assert_eq!((state.paddle_speed, state.ai_paddle_speed), (150_000, 150_000));
    assert_eq!(state.game_size, Rect { x: 0, y: 0, width: 0, height: 0 });
    assert!(!game.finished());
}

#[test]
fn laying_out_the_field_centres_the_ball() {
    let game = on_field();
    assert_eq!(game.current().ball_pos, Point { x: 500_000, y: 250_000 });
    assert_eq!(
        game.current().game_size,
        Rect { x: 100_000, y: 50_000, width: 800_000, height: 400_000 }
    );
}

#[test]
fn a_frame_steps_and_draws() {
    let mut game = on_field();
    let cmds = game.draw_frame(keys(false, true), Duration::from_millis(10));
    let state = game.current();
    assert_eq!(state.ball_pos, Point { x: 503_000, y: 253_000 });
    assert_eq!(state.paddle1.offset, 1_500);
    assert_eq!(state.paddle2.offset, 1_500);
    let expected = vec![
        DrawCommand::Rectangle { x: 100, y: 50, width: 800, height: 400, color: Color::White },
        DrawCommand::Circle { x: 503, y: 253, radius_tenths: 120, color: Color::Black },
        DrawCommand::Rectangle { x: 115, y: 201, width: 20, height: 100, color: Color::Black },
        DrawCommand::Rectangle { x: 865, y: 201, width: 20, height: 100, color: Color::Black },
    ];
    assert_eq!(cmds, expected);
}

#[test]
fn either_wall_ends_the_round_and_reset_starts_the_next() {
    let mut game = on_field();
    let mut ticks = 0;
    while !game.finished() {
        game.draw_frame(keys(true, false), Duration::from_millis(16));
        ticks += 1;
        assert!(ticks < 10_000);
    }
    let speed = game.current().ball_speed;
    game.reset();
    let state = game.current();
    assert!(!game.finished());
    assert_eq!(state.ball_pos, Point { x: 500_000, y: 250_000 });
    assert_eq!(state.ball_speed, speed);
    assert_eq!(state.paddle1.offset, 0);
    assert_eq!(state.paddle2.offset, 0);
    assert_eq!(
        state.game_size,
        Rect { x: 100_000, y: 50_000, width: 800_000, height: 400_000 }
    );
}
