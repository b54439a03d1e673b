//! Pong against the machine: the player moves the left paddle with two
//! keys, the right paddle follows the ball, and the round ends when the
//! ball reaches the wall behind one of them.

use crate::game_handler::Game;
use crate::motion::{
    bounced, bounced_spec, clamp, disc_meets_rect, disc_meets_rect_spec, from_pixel,
    from_pixel_spec, halved, middle, middle_spec, moved, moved_spec, pixel, pixel_spec, quotient,
    saturate, tenths, travel, travel_spec, Point, Rect,
};
use crate::random::random_index;
use crate::render::{Color, DrawCommand, Input};
use crate::util::nanos_of;
use rand::rngs::StdRng;
use std::time::Duration;
use vstd::prelude::*;

verus! {

/// The speed the ball leaves a paddle with, along the field.
pub const RETURN_SPEED: i32 = 300_000;

/// The distance between a paddle and the wall behind it.
pub const PADDLE_MARGIN: i32 = 15_000;

/// The room kept for the right paddle in front of its margin.
pub const PADDLE_ROOM: i32 = 20_000;

/// The smallest width of a field, in pixels.
pub const MIN_FIELD_WIDTH: i32 = 800;

/// The smallest height of a field, in pixels.
pub const MIN_FIELD_HEIGHT: i32 = 400;

/// The speeds a game of Pong is set up with, in thousandths of a pixel per
/// second.
#[derive(Clone, Copy, Debug, PartialEq, Eq, Structural)]
pub struct PongSettings {
    pub ball_speed: i32,
    pub paddle_speed: i32,
    pub ai_paddle_speed: i32,
}

/// A paddle: how long and how wide it is, and how far below the middle of
/// the field its middle stands.
#[derive(Clone, Copy, Debug, PartialEq, Eq, Structural)]
pub struct Paddle {
    pub length: i32,
    pub offset: i32,
    pub width: i32,
}

/// Everything the simulation of one round reads and changes.
#[derive(Clone, Copy, Debug, PartialEq, Eq, Structural)]
pub struct PongState {
    pub ball_size: i32,
    pub ball_pos: Point,
    pub ball_speed: Point,
    pub paddle1: Paddle,
    pub paddle2: Paddle,
    pub paddle_speed: i32,
    pub ai_paddle_speed: i32,
    pub game_size: Rect,
    pub finished: bool,
    pub lost: bool,
}

/// The area a paddle covers in `field` when its left edge is at `left`.
pub open spec fn paddle_rect_spec(field: Rect, paddle: Paddle, left: int) -> Rect {
    Rect {
        x: clamp(left) as i32,
        y: clamp(
            field.y + quotient(field.height as int, 2) + paddle.offset - quotient(
                paddle.length as int,
                2,
            ),
        ) as i32,
        width: paddle.width,
        height: paddle.length,
    }
}

/// The area a paddle covers in `field` when its left edge is at `left`.
pub fn paddle_rect(field: Rect, paddle: Paddle, left: i64) -> (rect: Rect)
    ensures
        rect == paddle_rect_spec(field, paddle, left as int),
{
    Rect {
        x: saturate(left as i128),
        y: saturate(
            (field.y as i64 + halved(field.height) as i64 + paddle.offset as i64 - halved(
                paddle.length,
            ) as i64) as i128,
        ),
        width: paddle.width,
        height: paddle.length,
    }
}

/// The position of a paddle that moved up for `nanos` nanoseconds.
pub open spec fn raised_spec(offset: int, speed: int, nanos: nat) -> int {
    clamp(offset - travel_spec(speed, nanos))
}

impl PongState {
    /// The left edge of the player's paddle.
    pub open spec fn left_edge(self) -> int {
        self.game_size.x + PADDLE_MARGIN
    }

    /// The left edge of the machine's paddle.
    pub open spec fn right_edge(self) -> int {
        self.game_size.x + self.game_size.width - PADDLE_MARGIN - PADDLE_ROOM
    }

    /// The state after the ball moved for `nanos` nanoseconds. A paddle
    /// that it meets sends it back at the return speed. Where it meets
    /// none and has reached the wall on the right, the round is over and
    /// won; at the wall on the left it is over and lost. At the top and
    /// at the bottom the ball turns round.
    pub open spec fn after_ball(self, nanos: nat) -> PongState {
        let g = self.game_size;
        let pos = Point {
            x: moved_spec(self.ball_pos.x as int, self.ball_speed.x as int, nanos) as i32,
            y: moved_spec(self.ball_pos.y as int, self.ball_speed.y as int, nanos) as i32,
        };
        let hit1 = disc_meets_rect_spec(
            pos,
            self.ball_size as int,
            paddle_rect_spec(g, self.paddle1, self.left_edge()),
        );
        let hit2 = disc_meets_rect_spec(
            pos,
            self.ball_size as int,
            paddle_rect_spec(g, self.paddle2, self.right_edge()),
        );
        let free = !hit1 && !hit2;
        let right = pos.x >= g.x + g.width - self.ball_size;
        let left = pos.x <= self.ball_size + g.x;
        PongState {
            ball_pos: pos,
            ball_speed: Point {
                x: if hit1 {
                    RETURN_SPEED
                } else if hit2 {
                    (-RETURN_SPEED) as i32
                } else {
                    self.ball_speed.x
                },
                y: bounced_spec(
                    pos.y as int,
                    self.ball_speed.y as int,
                    self.ball_size + g.y,
                    g.y + g.height - self.ball_size,
                ) as i32,
            },
            finished: self.finished || (free && (right || left)),
            lost: if free && right {
                false
            } else if free && left {
                true
            } else {
                self.lost
            },
            ..self
        }
    }

    /// Whether the player's paddle has room to go up: its upper end, in
    /// whole pixels, is still inside the upper half of the field.
    pub open spec fn room_above(self) -> bool {
        pixel_spec(self.paddle1.offset as int) - quotient(
            pixel_spec(self.paddle1.length as int),
            2,
        ) > -quotient(pixel_spec(self.game_size.height as int), 2)
    }

    /// Whether the player's paddle has room to go down: its lower end, in
    /// whole pixels, is still inside the lower half of the field.
    pub open spec fn room_below(self) -> bool {
        pixel_spec(self.paddle1.offset as int) + quotient(
            pixel_spec(self.paddle1.length as int),
            2,
        ) < quotient(pixel_spec(self.game_size.height as int), 2)
    }

    /// The height at which the middle of the machine's paddle stands.
    pub open spec fn machine_line(self) -> int {
        self.paddle2.offset + self.game_size.y + quotient(self.game_size.height as int, 2)
    }

    /// The state after the paddles moved for `nanos` nanoseconds: the
    /// player's paddle goes where the pressed key sends it, up before
    /// down, while it has room; the machine's paddle goes towards the ball.
    pub open spec fn after_paddles(self, input: Input, nanos: nat) -> PongState {
        let offset1 = if input.up && self.room_above() {
            raised_spec(self.paddle1.offset as int, self.paddle_speed as int, nanos)
        } else if input.down && self.room_below() {
            moved_spec(self.paddle1.offset as int, self.paddle_speed as int, nanos)
        } else {
            self.paddle1.offset as int
        };
        let offset2 = if self.ball_pos.y < self.machine_line() {
            raised_spec(self.paddle2.offset as int, self.ai_paddle_speed as int, nanos)
        } else if self.ball_pos.y > self.machine_line() {
            moved_spec(self.paddle2.offset as int, self.ai_paddle_speed as int, nanos)
        } else {
            self.paddle2.offset as int
        };
        PongState {
            paddle1: Paddle { offset: offset1 as i32, ..self.paddle1 },
            paddle2: Paddle { offset: offset2 as i32, ..self.paddle2 },
            ..self
        }
    }

    /// One step of the simulation: the ball first, then the paddles.
    pub open spec fn stepped(self, input: Input, nanos: nat) -> PongState {
        self.after_ball(nanos).after_paddles(input, nanos)
    }

    /// The state a new round starts from, in a field of `width` by `height`
    /// pixels in the middle of the screen: the ball in the middle of the
    /// field that the last round was played in, both paddles in the middle
    /// of their walls. The speeds stay, and so does the last result.
    pub open spec fn restarted(self, screen_size: (i32, i32), width: int, height: int) -> PongState {
        PongState {
            ball_pos: Point {
                x: middle_spec(self.game_size.x as int, self.game_size.width as int) as i32,
                y: middle_spec(self.game_size.y as int, self.game_size.height as int) as i32,
            },
            paddle1: Paddle { offset: 0, width: PADDLE_ROOM, ..self.paddle1 },
            paddle2: Paddle { offset: 0, width: PADDLE_ROOM, ..self.paddle2 },
            game_size: centered_field_spec(screen_size, width, height),
            finished: false,
            ..self
        }
    }

    /// The result of the round, once it is over.
    pub open spec fn outcome(self) -> Option<bool> {
        if self.finished {
            Some(self.lost)
        } else {
            None
        }
    }

    /// What the game shows: the field in dark gray, then the ball and the
    /// two paddles in black.
    pub open spec fn frame(self) -> Seq<DrawCommand> {
        self.frame_on(Color::DarkGray)
    }

    /// The frame on a field of the colour `ground`.
    pub open spec fn frame_on(self, ground: Color) -> Seq<DrawCommand> {
        let g = self.game_size;
        seq![
            DrawCommand::Rectangle {
                x: pixel_spec(g.x as int) as i32,
                y: pixel_spec(g.y as int) as i32,
                width: pixel_spec(g.width as int) as i32,
                height: pixel_spec(g.height as int) as i32,
                color: ground,
            },
            DrawCommand::Circle {
                x: pixel_spec(self.ball_pos.x as int) as i32,
                y: pixel_spec(self.ball_pos.y as int) as i32,
                radius_tenths: quotient(self.ball_size as int, 100) as i32,
                color: Color::Black,
            },
            paddle_shape_spec(g, self.paddle1, pixel_spec(g.x as int) + 15),
            paddle_shape_spec(
                g,
                self.paddle2,
                pixel_spec(g.x as int) + pixel_spec(g.width as int) - 15 - 20,
            ),
        ]
    }

    /// Moves the ball for `nanos` nanoseconds.
    pub fn pong_ball(&mut self, nanos: u128)
        ensures
            *final(self) == old(self).after_ball(nanos as nat),
    {
        let g = self.game_size;
        let size = self.ball_size as i64;
        let pos = Point {
            x: moved(self.ball_pos.x, self.ball_speed.x, nanos),
            y: moved(self.ball_pos.y, self.ball_speed.y, nanos),
        };
        let left_edge: i64 = g.x as i64 + 15_000;
        let right_edge: i64 = g.x as i64 + g.width as i64 - 15_000 - 20_000;
        let hit1 = disc_meets_rect(pos, self.ball_size, paddle_rect(g, self.paddle1, left_edge));
        let hit2 = disc_meets_rect(pos, self.ball_size, paddle_rect(g, self.paddle2, right_edge));
        self.ball_pos = pos;
        if hit1 {
            self.ball_speed.x = 300_000;
        } else if hit2 {
            self.ball_speed.x = -300_000;
        } else if pos.x as i64 >= g.x as i64 + g.width as i64 - size {
            self.finished = true;
            self.lost = false;
        } else if pos.x as i64 <= size + g.x as i64 {
            self.finished = true;
            self.lost = true;
        }
        self.ball_speed.y = bounced(
            pos.y,
            self.ball_speed.y,
            size + g.y as i64,
            g.y as i64 + g.height as i64 - size,
        );
    }

    /// One step of the simulation for `nanos` nanoseconds.
    pub fn pong_logic(&mut self, input: Input, nanos: u128)
        ensures
            *final(self) == old(self).stepped(input, nanos as nat),
    {
        self.pong_ball(nanos);
        let half_length = halved(pixel(self.paddle1.length)) as i64;
        let half_height = halved(pixel(self.game_size.height)) as i64;
        let offset = pixel(self.paddle1.offset) as i64;
        if input.up && offset - half_length > -half_height {
            self.paddle1.offset = saturate(
                self.paddle1.offset as i128 - travel(self.paddle_speed, nanos) as i128,
            );
        } else if input.down && offset + half_length < half_height {
            self.paddle1.offset = moved(self.paddle1.offset, self.paddle_speed, nanos);
        }
        let line: i64 = self.paddle2.offset as i64 + self.game_size.y as i64 + halved(
            self.game_size.height,
        ) as i64;
        if (self.ball_pos.y as i64) < line {
            self.paddle2.offset = saturate(
                self.paddle2.offset as i128 - travel(self.ai_paddle_speed, nanos) as i128,
            );
        } else if self.ball_pos.y as i64 > line {
            self.paddle2.offset = moved(self.paddle2.offset, self.ai_paddle_speed, nanos);
        }
    }

    /// Sets up the next round in a field of `width` by `height` pixels.
    pub fn reset(&mut self, screen_size: (i32, i32), width: i32, height: i32)
        ensures
            *final(self) == old(self).restarted(screen_size, width as int, height as int),
    {
        self.ball_pos = Point {
            x: middle(self.game_size.x, self.game_size.width),
            y: middle(self.game_size.y, self.game_size.height),
        };
        self.paddle1 = Paddle { length: self.paddle1.length, offset: 0, width: 20_000 };
        self.paddle2 = Paddle { length: self.paddle2.length, offset: 0, width: 20_000 };
        self.game_size = centered_field(screen_size, width, height);
        self.finished = false;
    }

    /// The render commands for this state.
    pub fn draw_frame(&self) -> (cmds: Vec<DrawCommand>)
        ensures
            cmds@ == self.frame(),
    {
        self.draw_on(Color::DarkGray)
    }

    /// The render commands for this state on a field of the colour `ground`.
    pub fn draw_on(&self, ground: Color) -> (cmds: Vec<DrawCommand>)
        ensures
            cmds@ == self.frame_on(ground),
    {
        let g = self.game_size;
        let mut cmds: Vec<DrawCommand> = Vec::new();
        cmds.push(
            DrawCommand::Rectangle {
                x: pixel(g.x),
                y: pixel(g.y),
                width: pixel(g.width),
                height: pixel(g.height),
                color: ground,
            },
        );
        cmds.push(
            DrawCommand::Circle {
                x: pixel(self.ball_pos.x),
                y: pixel(self.ball_pos.y),
                radius_tenths: tenths(self.ball_size),
                color: Color::Black,
            },
        );
        cmds.push(draw_paddle(g, self.paddle1, pixel(g.x) as i64 + 15));
        cmds.push(draw_paddle(g, self.paddle2, pixel(g.x) as i64 + pixel(g.width) as i64 - 15 - 20));
        assert(cmds@ =~= self.frame_on(ground));
        cmds
    }
}

/// The black rectangle that shows a paddle whose left edge is at the pixel
/// `left`. It is laid out in whole pixels.
pub open spec fn paddle_shape_spec(field: Rect, paddle: Paddle, left: int) -> DrawCommand {
    DrawCommand::Rectangle {
        x: clamp(left) as i32,
        y: clamp(
            pixel_spec(field.y as int) + quotient(pixel_spec(field.height as int), 2) + pixel_spec(
                paddle.offset as int,
            ) - quotient(pixel_spec(paddle.length as int), 2),
        ) as i32,
        width: pixel_spec(paddle.width as int) as i32,
        height: pixel_spec(paddle.length as int) as i32,
        color: Color::Black,
    }
}

/// The black rectangle that shows a paddle whose left edge is at the pixel
/// `left`.
pub fn draw_paddle(field: Rect, paddle: Paddle, left: i64) -> (cmd: DrawCommand)
    ensures
        cmd == paddle_shape_spec(field, paddle, left as int),
{
    DrawCommand::Rectangle {
        x: saturate(left as i128),
        y: saturate(
            (pixel(field.y) as i64 + halved(pixel(field.height)) as i64 + pixel(
                paddle.offset,
            ) as i64 - halved(pixel(paddle.length)) as i64) as i128,
        ),
        width: pixel(paddle.width),
        height: pixel(paddle.length),
        color: Color::Black,
    }
}

/// The field of `width` by `height` pixels in the middle of the screen.
pub open spec fn centered_field_spec(screen_size: (i32, i32), width: int, height: int) -> Rect {
    Rect {
        x: from_pixel_spec(quotient(screen_size.0 as int, 2) - quotient(width, 2)) as i32,
        y: from_pixel_spec(quotient(screen_size.1 as int, 2) - quotient(height, 2)) as i32,
        width: from_pixel_spec(width) as i32,
        height: from_pixel_spec(height) as i32,
    }
}

/// The field of `width` by `height` pixels in the middle of the screen.
pub fn centered_field(screen_size: (i32, i32), width: i32, height: i32) -> (field: Rect)
    ensures
        field == centered_field_spec(screen_size, width as int, height as int),
{
    let x: i64 = halved(screen_size.0) as i64 - halved(width) as i64;
    let y: i64 = halved(screen_size.1) as i64 - halved(height) as i64;
    Rect {
        x: saturate(x as i128 * 1000),
        y: saturate(y as i128 * 1000),
        width: from_pixel(width),
        height: from_pixel(height),
    }
}

/// A game of Pong: the state of the round, the screen the fields are laid
/// out on, and the random source that sizes the field of each new round.
pub struct Pong {
    state: PongState,
    screen_size: (i32, i32),
    rng: StdRng,
}

impl Pong {
    /// The state of the round.
    pub closed spec fn state(&self) -> PongState {
        self.state
    }

    /// The size of the screen, in pixels.
    pub closed spec fn screen(&self) -> (i32, i32) {
        self.screen_size
    }

    /// The bound below which the size of a field is drawn: four fifths of
    /// the screen.
    pub open spec fn limit(extent: int) -> int {
        quotient(extent * 4, 5)
    }

    /// Whether fields can be laid out on the screen: on each axis there is
    /// a size from the smallest one up that is under the limit.
    pub open spec fn fits(screen_size: (i32, i32)) -> bool {
        &&& Self::limit(screen_size.0 as int) > MIN_FIELD_WIDTH
        &&& Self::limit(screen_size.1 as int) > MIN_FIELD_HEIGHT
    }

    /// The state of the first round: a field of the smallest size in the
    /// middle of the screen, the ball in its middle, a fifth faster along
    /// the field than across it.
    pub open spec fn initial_state(screen_size: (i32, i32), settings: PongSettings) -> PongState {
        let field = centered_field_spec(
            screen_size,
            MIN_FIELD_WIDTH as int,
            MIN_FIELD_HEIGHT as int,
        );
        PongState {
            ball_size: 12_000,
            ball_pos: Point {
                x: middle_spec(field.x as int, field.width as int) as i32,
                y: middle_spec(field.y as int, field.height as int) as i32,
            },
            ball_speed: Point {
                x: clamp(quotient(settings.ball_speed * 12, 10)) as i32,
                y: settings.ball_speed,
            },
            paddle1: Paddle { length: 100_000, offset: 0, width: PADDLE_ROOM },
            paddle2: Paddle { length: 100_000, offset: 0, width: PADDLE_ROOM },
            paddle_speed: settings.paddle_speed,
            ai_paddle_speed: settings.ai_paddle_speed,
            game_size: field,
            finished: false,
            lost: false,
        }
    }

    /// Whether fields can be laid out on a screen of this size.
    pub fn screen_fits(screen_size: (i32, i32)) -> (fits: bool)
        ensures
            fits == Self::fits(screen_size),
    {
        screen_size.0 > 0 && screen_size.1 > 0 && (screen_size.0 as i64 * 4) / 5 > 800 && (
        screen_size.1 as i64 * 4) / 5 > 400
    }

    /// A game on a screen that fields can be laid out on.
    pub fn new(screen_size: (i32, i32), settings: &PongSettings, rng: StdRng) -> (game: Pong)
        requires
            Self::fits(screen_size),
        ensures
            game.inv(),
            game.screen() == screen_size,
            game.state() == Self::initial_state(screen_size, *settings),
    {
        let field = centered_field(screen_size, 800, 400);
        let fast: i64 = settings.ball_speed as i64 * 12;
        let along: i64 = if fast >= 0 {
            fast / 10
        } else {
            -((-fast) / 10)
        };
        Pong {
            state: PongState {
                ball_size: 12_000,
                ball_pos: Point {
                    x: middle(field.x, field.width),
                    y: middle(field.y, field.height),
                },
                ball_speed: Point { x: saturate(along as i128), y: settings.ball_speed },
                paddle1: Paddle { length: 100_000, offset: 0, width: 20_000 },
                paddle2: Paddle { length: 100_000, offset: 0, width: 20_000 },
                paddle_speed: settings.paddle_speed,
                ai_paddle_speed: settings.ai_paddle_speed,
                game_size: field,
                finished: false,
                lost: false,
            },
            screen_size,
            rng,
        }
    }

    /// The state of the round.
    pub fn current(&self) -> (state: PongState)
        ensures
            state == self.state(),
    {
        self.state
    }

    /// Puts the round into `state`.
    pub fn set_state(&mut self, state: PongState)
        ensures
            final(self).state() == state,
            final(self).screen() == old(self).screen(),
    {
        self.state = state;
    }
}

impl Game for Pong {
    open spec fn inv(&self) -> bool {
        Self::fits(self.screen())
    }

    open spec fn name(&self) -> Seq<char> {
        "Pong"@
    }

    open spec fn outcome(&self) -> Option<bool> {
        self.state().outcome()
    }

    open spec fn steps_to(&self, input: Input, delta: nat, next: Self) -> bool {
        &&& next.screen() == self.screen()
        &&& next.state() == self.state().stepped(input, delta)
    }

    open spec fn frame(&self) -> Seq<DrawCommand> {
        self.state().frame()
    }

    fn get_info(&self) -> (name: &str) {
        "Pong"
    }

    fn logic(&mut self, input: Input, delta: Duration) {
        self.state.pong_logic(input, nanos_of(delta));
    }

    fn draw(&self) -> (cmds: Vec<DrawCommand>) {
        self.state.draw_frame()
    }

    /// With the report of a round that is over, the next round is set up
    /// in a field of a random size, from the smallest one up and under the
    /// limit on each axis.
    fn is_finished(&mut self) -> (result: Option<bool>)
        ensures
            final(self).screen() == old(self).screen(),
            result.is_some() ==> exists|width: int, height: int|
                {
                    &&& MIN_FIELD_WIDTH <= width < Self::limit(old(self).screen().0 as int)
                    &&& MIN_FIELD_HEIGHT <= height < Self::limit(old(self).screen().1 as int)
                    &&& final(self).state() == #[trigger] old(self).state().restarted(
                        old(self).screen(),
                        width,
                        height,
                    )
                },
    {
        if self.state.finished {
            assert(self.screen_size.0 > 0 && self.screen_size.1 > 0);
            let width_limit: i64 = (self.screen_size.0 as i64 * 4) / 5;
            let height_limit: i64 = (self.screen_size.1 as i64 * 4) / 5;
            assert(width_limit == Self::limit(self.screen_size.0 as int));
            assert(height_limit == Self::limit(self.screen_size.1 as int));
            assert(800 < width_limit <= 0x7fff_ffff && 400 < height_limit <= 0x7fff_ffff);
            let extra_width = random_index(&mut self.rng, (width_limit - 800) as usize);
            let extra_height = random_index(&mut self.rng, (height_limit - 400) as usize);
            let width: i32 = (800 + extra_width as i64) as i32;
            let height: i32 = (400 + extra_height as i64) as i32;
            let lost = self.state.lost;
            self.state.reset(self.screen_size, width, height);
            assert(self.state() == old(self).state().restarted(
                old(self).screen(),
                width as int,
                height as int,
            ));
            assert(MIN_FIELD_WIDTH <= (width as int) && (width as int) < Self::limit(
                old(self).screen().0 as int,
            ));
            assert(MIN_FIELD_HEIGHT <= (height as int) && (height as int) < Self::limit(
                old(self).screen().1 as int,
            ));
            Some(lost)
        } else {
            None
        }
    }
}

} // verus!
