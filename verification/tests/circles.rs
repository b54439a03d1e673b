use idle_arcade::game_handler::Game;
use idle_arcade::games::circles::{
    field, hit, kept, next_amount, place_circles, settled, Circle, Circles, CirclesSettings,
};
use idle_arcade::motion::{Point, Rect};
use idle_arcade::render::{Color, DrawCommand, Input};
use rand::rngs::StdRng;
use rand::SeedableRng;
use std::time::Duration;

const SCREEN: (i32, i32) = (1920, 1080);

fn settings(amount: i32, max_amount: i32) -> CirclesSettings {
    CirclesSettings { amount, max_amount, time_limit: Duration::from_secs(5) }
}

fn click(at: Point) -> Input {
    Input {
        pointer_x: at.x / 1000,
        pointer_y: at.y / 1000,
        up: false,
        down: false,
        left_button: true,
    }
}

fn hover(at: Point) -> Input {
    Input { left_button: false, ..click(at) }
}

fn circle(x: i32, y: i32) -> Circle {
    Circle { center: Point { x, y }, radius: 50_000 }
}

#[test]
fn the_field_leaves_a_tenth_free() {
    assert_eq!(field(SCREEN), Rect { x: 192_000, y: 108_000, width: 1_536_000, height: 864_000 });
    assert!(Circles::is_playable(SCREEN, &settings(4, 10)));
    assert!(!Circles::is_playable(SCREEN, &settings(4, 0)));
    assert!(!Circles::is_playable((0, 1080), &settings(4, 10)));
    assert!(!Circles::is_playable((1920, -5), &settings(4, 10)));
}

#[test]
fn the_next_round_has_one_circle_more() {
    assert_eq!(next_amount(4, 10), 5);
    assert_eq!(next_amount(9, 10), 10);
    assert_eq!(next_amount(10, 10), 10);
    assert_eq!(next_amount(25, 10), 10);
    assert_eq!(next_amount(-3, 10), 1);
    assert_eq!(next_amount(0, 1), 1);
    assert_eq!(next_amount(i32::MAX, i32::MAX), i32::MAX);
}

#[test]
fn a_circle_is_pushed_away_from_those_before_it() {
    let others = vec![circle(0, 0)];
    assert_eq!(settled(&others, Point { x: 30_000, y: 40_000 }), Point { x: 60_000, y: 80_000 });
    assert_eq!(settled(&others, Point { x: 100_000, y: 0 }), Point { x: 100_000, y: 0 });
    assert_eq!(settled(&others, Point { x: 0, y: 0 }), Point { x: 0, y: 0 });
    let two = vec![circle(0, 0), circle(150_000, 0)];
    assert_eq!(settled(&two, Point { x: 50_000, y: 0 }), Point { x: 50_000, y: 0 });
    assert_eq!(settled(&two, Point { x: 0, y: 30_000 }), Point { x: 0, y: 100_000 });
    assert_eq!(settled(&Vec::new(), Point { x: 7, y: 8 }), Point { x: 7, y: 8 });
}

#[test]
fn circles_are_drawn_inside_the_bounds() {
    let rect = Rect { x: 10, y: 20, width: 13, height: 22 };
    let mut rng = StdRng::seed_from_u64(3);
    for _ in 0..50 {
        let placed = place_circles(1, rect, &mut rng);
        assert_eq!(placed.len(), 1);
        assert_eq!(placed[0].radius, 50_000);
        assert!((10..13).contains(&placed[0].center.x));
        assert!((20..22).contains(&placed[0].center.y));
    }
    assert!(place_circles(0, rect, &mut rng).is_empty());
    assert!(place_circles(-4, rect, &mut rng).is_empty());
    assert_eq!(place_circles(12, field(SCREEN), &mut rng).len(), 12);
}

#[test]
fn a_click_hits_within_the_radius() {
    assert!(hit(circle(0, 0), Point { x: 30_000, y: 40_000 }));
    assert!(!hit(circle(0, 0), Point { x: 30_000, y: 40_001 }));
    assert!(!hit(Circle { center: Point { x: 0, y: 0 }, radius: -1 }, Point { x: 0, y: 0 }));
    let circles = vec![circle(0, 0), circle(500_000, 0), circle(20_000, 0), circle(0, 900_000)];
    assert_eq!(kept(&circles, Point { x: 10_000, y: 0 }), vec![circle(500_000, 0), circle(0, 900_000)]);
    assert_eq!(kept(&circles, Point { x: -400_000, y: 0 }), circles);
}

#[test]
fn clicking_every_circle_wins_the_round() {
    let mut game = Circles::new(SCREEN, &settings(4, 10), StdRng::seed_from_u64(8));
    assert_eq!(game.get_info(), "Circles");
    assert_eq!(game.remaining().len(), 4);
    assert_eq!(game.is_finished(), None);
    let first = game.remaining()[0].center;
    game.logic(hover(first), Duration::from_millis(16));
    assert_eq!(game.remaining().len(), 4);
    let mut clicks = 0;
    while !game.remaining().is_empty() {
        let before = game.remaining().len();
        let target = game.remaining()[0].center;
        game.logic(click(target), Duration::from_millis(16));
        assert!(game.remaining().len() < before);
        clicks += 1;
    }
    assert!(clicks <= 4);
    assert_eq!(game.is_finished(), Some(false));
    assert_eq!(game.is_finished(), None);
    assert_eq!(game.round_amount(), 5);
    assert_eq!(game.remaining().len(), 5);
}

#[test]
fn running_out_of_time_loses_the_round() {
    let mut game = Circles::new(SCREEN, &settings(9, 10), StdRng::seed_from_u64(8));
    let nowhere = Point { x: -900_000, y: -900_000 };
    game.logic(hover(nowhere), Duration::from_millis(4_999));
    assert_eq!(game.is_finished(), None);
    game.logic(hover(nowhere), Duration::from_millis(1));
    assert_eq!(game.is_finished(), Some(true));
    assert_eq!(game.is_finished(), None);
    assert_eq!(game.round_amount(), 10);
    assert_eq!(game.remaining().len(), 10);
    game.logic(hover(nowhere), Duration::from_secs(5));
    assert_eq!(game.is_finished(), Some(true));
    assert_eq!(game.round_amount(), 10);
    assert_eq!(game.is_finished(), None);
}

#[test]
fn a_round_without_circles_is_over_at_once() {
    let mut game = Circles::new(SCREEN, &settings(0, 3), StdRng::seed_from_u64(8));
    assert_eq!(game.is_finished(), Some(false));
    assert_eq!(game.remaining().len(), 1);
    assert_eq!(game.is_finished(), None);
}

#[test]
fn the_frame_shows_circles_and_countdown() {
    let mut game = Circles::new(SCREEN, &settings(2, 10), StdRng::seed_from_u64(8));
    game.logic(hover(Point { x: 0, y: 0 }), Duration::from_millis(1_600));
    let cmds = game.draw();
    assert_eq!(cmds.len(), 5);
    for (cmd, circle) in cmds.iter().zip(game.remaining()) {
        assert_eq!(
            *cmd,
            DrawCommand::Circle {
                x: circle.center.x / 1000,
                y: circle.center.y / 1000,
                radius_tenths: 500,
                color: Color::Red
            }
        );
    }
    let number = |shift_x: i32, y: i32, color: Color| DrawCommand::CenteredNumber {
        value: 3,
        center_x: 960,
        shift_x,
        y,
        size: 50,
        color,
    };
    assert_eq!(cmds[2], number(2, 109, Color::Black));
    assert_eq!(cmds[3], number(-2, 107, Color::Black));
    assert_eq!(cmds[4], number(0, 108, Color::Red));
}
