use idle_arcade::game::Pong;
use idle_arcade::motion::{Point, Rect};
use idle_arcade::render::{Color, DrawCommand};
use std::time::Duration;

fn boxed() -> Pong {
    let mut game = Pong::new();
    game.set_game_size(Rect { x: 100_000, y: 50_000, width: 800_000, height: 400_000 });
    game
}

#[test]
fn a_new_ball_rests_at_the_origin() {
    let game = Pong::new();
    assert_eq!(game.ball_pos(), Point { x: 0, y: 0 });
    assert_eq!(game.ball_speed(), Point { x: 300_000, y: 300_000 });
}

#[test]
fn the_field_is_laid_out_round_the_ball() {
    let game = boxed();
    assert_eq!(game.ball_pos(), Point { x: 500_000, y: 250_000 });
}

#[test]
fn the_ball_moves_by_speed_times_time() {
    let mut game = boxed();
    game.pong_logic(Duration::from_millis(10));
    assert_eq!(game.ball_pos(), Point { x: 503_000, y: 253_000 });
    assert_eq!(game.ball_speed(), Point { x: 300_000, y: 300_000 });
}

#[test]
fn boundary_reflection_on_the_right_wall() {
    let mut game = boxed();
    let bound = 100_000 + 800_000;
    game.place_ball(Point { x: bound - 12_000, y: 250_000 }, Point { x: 300_000, y: 0 });
    game.pong_logic(Duration::from_millis(16));
    assert_eq!(game.ball_speed().x, -300_000);
    assert_eq!(game.ball_pos().x, bound - 12_000 + 4_800);
    assert!(game.ball_pos().x <= bound + 4_800);
    game.pong_logic(Duration::from_millis(16));
    assert_eq!(game.ball_pos().x, bound - 12_000);
    assert_eq!(game.ball_speed().x, 300_000);
}

#[test]
fn reflection_on_the_other_walls() {
    let mut game = boxed();
    game.place_ball(Point { x: 112_000, y: 62_000 }, Point { x: -300_000, y: -200_000 });
    game.pong_logic(Duration::ZERO);
    assert_eq!(game.ball_pos(), Point { x: 112_000, y: 62_000 });
    assert_eq!(game.ball_speed(), Point { x: 300_000, y: 200_000 });
    game.place_ball(Point { x: 500_000, y: 438_000 }, Point { x: 10, y: 20 });
    game.pong_logic(Duration::ZERO);
    assert_eq!(game.ball_speed(), Point { x: 10, y: -20 });
}

#[test]
fn the_frame_shows_field_and_ball() {
    let mut game = boxed();
    let cmds = game.draw_frame(Duration::from_millis(10));
    let expected = vec![
        DrawCommand::Rectangle { x: 100, y: 50, width: 800, height: 400, color: Color::White },
        DrawCommand::Circle { x: 503, y: 253, radius_tenths: 120, color: Color::Green },
    ];
    assert_eq!(cmds, expected);
}
