//! Pong on a field that the caller lays out: the simulation of the game of
//! the same name among the mini-games, without a handler round it. Both
//! paddles move at the same speed, and a round is simply over when the ball
//! reaches either wall.

use crate::games::pong::{Paddle, PongState};
use crate::motion::{middle, middle_spec, Point, Rect};
use crate::render::{Color, DrawCommand, Input};
use crate::util::{duration_nanos, nanos_of};
use std::time::Duration;
use vstd::prelude::*;

verus! {

/// The speed of both paddles.
pub const PADDLE_SPEED: i32 = 150_000;

/// The game: the state of the round.
#[derive(Clone, Copy)]
pub struct Pong {
    state: PongState,
}

impl Pong {
    /// The state of the round.
    pub closed spec fn state(&self) -> PongState {
        self.state
    }

    /// The state before a field is laid out.
    pub open spec fn initial_state() -> PongState {
        PongState {
            ball_size: 12_000,
            ball_pos: Point { x: 0, y: 0 },
            ball_speed: Point { x: 300_000, y: 300_000 },
            paddle1: Paddle { length: 100_000, offset: 0, width: 20_000 },
            paddle2: Paddle { length: 100_000, offset: 0, width: 20_000 },
            paddle_speed: PADDLE_SPEED,
            ai_paddle_speed: PADDLE_SPEED,
            game_size: Rect { x: 0, y: 0, width: 0, height: 0 },
            finished: false,
            lost: false,
        }
    }

    /// `state` with the ball in the middle of its field.
    pub open spec fn centered(state: PongState) -> PongState {
        PongState {
            ball_pos: Point {
                x: middle_spec(state.game_size.x as int, state.game_size.width as int) as i32,
                y: middle_spec(state.game_size.y as int, state.game_size.height as int) as i32,
            },
            ..state
        }
    }

    /// The state a new round starts from: the ball in the middle of the
    /// field, both paddles in the middle of their walls.
    pub open spec fn restarted(state: PongState) -> PongState {
        PongState {
            paddle1: Paddle { offset: 0, width: 20_000, ..state.paddle1 },
            paddle2: Paddle { offset: 0, width: 20_000, ..state.paddle2 },
            finished: false,
            ..Self::centered(state)
        }
    }

    /// A game that waits for its field.
    pub fn new() -> (game: Pong)
        ensures
            game.state() == Self::initial_state(),
    {
        Pong {
            state: PongState {
                ball_size: 12_000,
                ball_pos: Point { x: 0, y: 0 },
                ball_speed: Point { x: 300_000, y: 300_000 },
                paddle1: Paddle { length: 100_000, offset: 0, width: 20_000 },
                paddle2: Paddle { length: 100_000, offset: 0, width: 20_000 },
                paddle_speed: 150_000,
                ai_paddle_speed: 150_000,
                game_size: Rect { x: 0, y: 0, width: 0, height: 0 },
                finished: false,
                lost: false,
            },
        }
    }

    /// Starts the next round on the same field.
    pub fn reset(&mut self)
        ensures
            final(self).state() == Self::restarted(old(self).state()),
    {
        self.state.ball_pos = Point {
            x: middle(self.state.game_size.x, self.state.game_size.width),
            y: middle(self.state.game_size.y, self.state.game_size.height),
        };
        self.state.paddle1 = Paddle { length: self.state.paddle1.length, offset: 0, width: 20_000 };
        self.state.paddle2 = Paddle { length: self.state.paddle2.length, offset: 0, width: 20_000 };
        self.state.finished = false;
    }

    /// Lays out the field and puts the ball in its middle.
    pub fn set_game_size(&mut self, game_size: Rect)
        ensures
            final(self).state() == Self::centered(
                (PongState { game_size, ..old(self).state() }),
            ),
    {
        self.state.game_size = game_size;
        self.state.ball_pos = Point {
            x: middle(game_size.x, game_size.width),
            y: middle(game_size.y, game_size.height),
        };
    }

    /// One step of the simulation, and the frame that shows the state it
    /// led to: the field in white, then the ball and the paddles in black.
    pub fn draw_frame(&mut self, input: Input, delta: Duration) -> (cmds: Vec<DrawCommand>)
        ensures
            final(self).state() == old(self).state().stepped(input, duration_nanos(delta)),
            cmds@ == final(self).state().frame_on(Color::White),
    {
        self.state.pong_logic(input, nanos_of(delta));
        self.state.draw_on(Color::White)
    }

    /// Whether the round is over.
    pub fn finished(&self) -> (finished: bool)
        ensures
            finished == self.state().finished,
    {
        self.state.finished
    }

    /// The state of the round.
    pub fn current(&self) -> (state: PongState)
        ensures
            state == self.state(),
    {
        self.state
    }
}

} // verus!
