//! A ball in a box: the plainest of the simulations, a ball that crosses a
//! rectangular field and turns round at each wall.

use crate::motion::{
    bounced, bounced_spec, middle, middle_spec, moved, moved_spec, pixel, pixel_spec, quotient,
    tenths, Point, Rect,
};
use crate::render::{Color, DrawCommand};
use crate::util::{duration_nanos, nanos_of};
use std::time::Duration;
use vstd::prelude::*;

verus! {

/// The ball and the field it moves in.
#[derive(Clone, Copy)]
pub struct Pong {
    ball_size: i32,
    ball_pos: Point,
    ball_speed: Point,
    game_size: Rect,
}

impl Pong {
    /// The radius of the ball.
    pub closed spec fn radius(&self) -> int {
        self.ball_size as int
    }

    /// The centre of the ball.
    pub closed spec fn ball(&self) -> Point {
        self.ball_pos
    }

    /// The velocity of the ball.
    pub closed spec fn speed(&self) -> Point {
        self.ball_speed
    }

    /// The field.
    pub closed spec fn field(&self) -> Rect {
        self.game_size
    }

    /// The lowest coordinate the centre of a ball of `radius` can have
    /// before the ball touches the wall at `start`.
    pub open spec fn low_wall(start: int, radius: int) -> int {
        radius + start
    }

    /// The highest coordinate the centre of a ball of `radius` can have
    /// before the ball touches the wall `length` beyond `start`.
    pub open spec fn high_wall(start: int, length: int, radius: int) -> int {
        start + length - radius
    }

    /// One step of the ball: it moves for `nanos` nanoseconds, and then, on
    /// each axis on which it has reached a wall, turns round.
    pub open spec fn stepped(&self, nanos: nat, next: Pong) -> bool {
        let f = self.field();
        let r = self.radius();
        let x = moved_spec(self.ball().x as int, self.speed().x as int, nanos);
        let y = moved_spec(self.ball().y as int, self.speed().y as int, nanos);
        &&& next.field() == f
        &&& next.radius() == r
        &&& next.ball().x == x
        &&& next.ball().y == y
        &&& next.speed().x == bounced_spec(
            x,
            self.speed().x as int,
            Self::low_wall(f.x as int, r),
            Self::high_wall(f.x as int, f.width as int, r),
        )
        &&& next.speed().y == bounced_spec(
            y,
            self.speed().y as int,
            Self::low_wall(f.y as int, r),
            Self::high_wall(f.y as int, f.height as int, r),
        )
    }

    /// What the game shows: the field in white, the ball on it in green.
    pub open spec fn frame(&self) -> Seq<DrawCommand> {
        let f = self.field();
        seq![
            DrawCommand::Rectangle {
                x: pixel_spec(f.x as int) as i32,
                y: pixel_spec(f.y as int) as i32,
                width: pixel_spec(f.width as int) as i32,
                height: pixel_spec(f.height as int) as i32,
                color: Color::White,
            },
            DrawCommand::Circle {
                x: pixel_spec(self.ball().x as int) as i32,
                y: pixel_spec(self.ball().y as int) as i32,
                radius_tenths: quotient(self.radius(), 100) as i32,
                color: Color::Green,
            },
        ]
    }

    /// A ball of twelve pixels at the origin, moving at 300 pixels a second
    /// on each axis, in a field that is still empty.
    pub fn new() -> (game: Pong)
        ensures
            game.radius() == 12_000,
            game.ball() == (Point { x: 0, y: 0 }),
            game.speed() == (Point { x: 300_000, y: 300_000 }),
            game.field() == (Rect { x: 0, y: 0, width: 0, height: 0 }),
    {
        Pong {
            ball_size: 12_000,
            ball_pos: Point { x: 0, y: 0 },
            ball_speed: Point { x: 300_000, y: 300_000 },
            game_size: Rect { x: 0, y: 0, width: 0, height: 0 },
        }
    }

    /// Lays out the field and puts the ball in its middle.
    pub fn set_game_size(&mut self, game_size: Rect)
        ensures
            final(self).field() == game_size,
            final(self).radius() == old(self).radius(),
            final(self).speed() == old(self).speed(),
            final(self).ball().x == middle_spec(game_size.x as int, game_size.width as int),
            final(self).ball().y == middle_spec(game_size.y as int, game_size.height as int),
    {
        self.game_size = game_size;
        self.ball_pos = Point {
            x: middle(game_size.x, game_size.width),
            y: middle(game_size.y, game_size.height),
        };
    }

    /// Puts the ball at `pos` and sends it off at `speed`.
    pub fn place_ball(&mut self, pos: Point, speed: Point)
        ensures
            final(self).ball() == pos,
            final(self).speed() == speed,
            final(self).field() == old(self).field(),
            final(self).radius() == old(self).radius(),
    {
        self.ball_pos = pos;
        self.ball_speed = speed;
    }

    /// One step of the ball.
    pub fn pong_logic(&mut self, delta: Duration)
        ensures
            old(self).stepped(duration_nanos(delta), *final(self)),
    {
        let nanos = nanos_of(delta);
        let f = self.game_size;
        let r = self.ball_size as i64;
        let x = moved(self.ball_pos.x, self.ball_speed.x, nanos);
        let y = moved(self.ball_pos.y, self.ball_speed.y, nanos);
        self.ball_pos = Point { x, y };
        self.ball_speed = Point {
            x: bounced(x, self.ball_speed.x, r + f.x as i64, f.x as i64 + f.width as i64 - r),
            y: bounced(y, self.ball_speed.y, r + f.y as i64, f.y as i64 + f.height as i64 - r),
        };
    }

    /// One step of the ball, and the frame that shows where it got to.
    pub fn draw_frame(&mut self, delta: Duration) -> (cmds: Vec<DrawCommand>)
        ensures
            old(self).stepped(duration_nanos(delta), *final(self)),
            cmds@ == final(self).frame(),
    {
        self.pong_logic(delta);
        let f = self.game_size;
        let mut cmds: Vec<DrawCommand> = Vec::new();
        cmds.push(
            DrawCommand::Rectangle {
                x: pixel(f.x),
                y: pixel(f.y),
                width: pixel(f.width),
                height: pixel(f.height),
                color: Color::White,
            },
        );
        cmds.push(
            DrawCommand::Circle {
                x: pixel(self.ball_pos.x),
                y: pixel(self.ball_pos.y),
                radius_tenths: tenths(self.ball_size),
                color: Color::Green,
            },
        );
        assert(cmds@ =~= self.frame());
        cmds
    }

    /// The centre of the ball.
    pub fn ball_pos(&self) -> (pos: Point)
        ensures
            pos == self.ball(),
    {
        self.ball_pos
    }

    /// The velocity of the ball.
    pub fn ball_speed(&self) -> (speed: Point)
        ensures
            speed == self.speed(),
    {
        self.ball_speed
    }
}

/// A ball that stands exactly at the right wall and moves to the right
/// turns round in the next step, and it is then no further beyond the wall
/// than the way it made in that step.
pub proof fn lemma_boundary_reflection(before: Pong, nanos: nat, after: Pong)
    requires
        before.stepped(nanos, after),
        before.radius() >= 0,
        before.speed().x > 0,
        before.ball().x == Pong::high_wall(
            before.field().x as int,
            before.field().width as int,
            before.radius(),
        ),
    ensures
        after.speed().x == -before.speed().x,
        after.ball().x <= before.field().x + before.field().width + travel_bound(
            before.speed().x as int,
            nanos,
        ),
        after.ball().x >= before.ball().x,
{
    let way = before.speed().x * nanos;
    assert(way >= 0) by (nonlinear_arith)
        requires
            way == before.speed().x * nanos,
            before.speed().x > 0,
    ;
}

/// The way a body makes at `speed` in `nanos` nanoseconds, rounded down.
pub open spec fn travel_bound(speed: int, nanos: nat) -> int {
    (speed * nanos) / 1_000_000_000
}

} // verus!
