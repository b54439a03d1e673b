//! The mini-games a handler can choose from, and the handler that is set up
//! from the settings with those of them that are switched on.

pub mod avoider;
pub mod circles;
pub mod pong;

use crate::game_handler::{Game, GameHandler, HandlerError};
use crate::games::avoider::{Avoider, AvoiderSettings};
use crate::games::circles::{Circles, CirclesSettings};
use crate::games::pong::{Pong, PongSettings};
use crate::random::split_off;
use crate::render::{DrawCommand, Input};
use crate::util::duration_nanos;
use rand::rngs::StdRng;
use std::time::Duration;
use vstd::prelude::*;

verus! {

/// The games there are.
#[derive(Clone, Copy, Debug, PartialEq, Eq, Structural)]
pub enum GameKind {
    Pong,
    Circles,
    Avoider,
}

/// One of the games.
pub enum AnyGame {
    Pong(Pong),
    Circles(Circles),
    Avoider(Avoider),
}

/// What the overlay is set up with: the idle time between two rounds, and
/// for each game that is switched on what it is tuned to.
#[derive(Clone, Copy, Debug)]
pub struct Settings {
    pub cooldown: Duration,
    pub pong: Option<PongSettings>,
    pub circles: Option<CirclesSettings>,
    pub avoider: Option<AvoiderSettings>,
}

impl AnyGame {
    /// Which game this is.
    pub open spec fn kind_spec(&self) -> GameKind {
        match self {
            AnyGame::Pong(_) => GameKind::Pong,
            AnyGame::Circles(_) => GameKind::Circles,
            AnyGame::Avoider(_) => GameKind::Avoider,
        }
    }

    /// Which game this is.
    pub fn kind(&self) -> (kind: GameKind)
        ensures
            kind == self.kind_spec(),
    {
        match self {
            AnyGame::Pong(_) => GameKind::Pong,
            AnyGame::Circles(_) => GameKind::Circles,
            AnyGame::Avoider(_) => GameKind::Avoider,
        }
    }
}

impl Game for AnyGame {
    open spec fn inv(&self) -> bool {
        match self {
            AnyGame::Pong(game) => game.inv(),
            AnyGame::Circles(game) => game.inv(),
            AnyGame::Avoider(game) => game.inv(),
        }
    }

    open spec fn name(&self) -> Seq<char> {
        match self {
            AnyGame::Pong(game) => game.name(),
            AnyGame::Circles(game) => game.name(),
            AnyGame::Avoider(game) => game.name(),
        }
    }

    open spec fn outcome(&self) -> Option<bool> {
        match self {
            AnyGame::Pong(game) => game.outcome(),
            AnyGame::Circles(game) => game.outcome(),
            AnyGame::Avoider(game) => game.outcome(),
        }
    }

    open spec fn steps_to(&self, input: Input, delta: nat, next: Self) -> bool {
        match (*self, next) {
            (AnyGame::Pong(game), AnyGame::Pong(after)) => game.steps_to(input, delta, after),
            (AnyGame::Circles(game), AnyGame::Circles(after)) => game.steps_to(input, delta, after),
            (AnyGame::Avoider(game), AnyGame::Avoider(after)) => game.steps_to(input, delta, after),
            _ => false,
        }
    }

    open spec fn frame(&self) -> Seq<DrawCommand> {
        match self {
            AnyGame::Pong(game) => game.frame(),
            AnyGame::Circles(game) => game.frame(),
            AnyGame::Avoider(game) => game.frame(),
        }
    }

    fn get_info(&self) -> (name: &str) {
        match self {
            AnyGame::Pong(game) => game.get_info(),
            AnyGame::Circles(game) => game.get_info(),
            AnyGame::Avoider(game) => game.get_info(),
        }
    }

    fn logic(&mut self, input: Input, delta: Duration)
        ensures
            final(self).kind_spec() == old(self).kind_spec(),
    {
        match self {
            AnyGame::Pong(game) => game.logic(input, delta),
            AnyGame::Circles(game) => game.logic(input, delta),
            AnyGame::Avoider(game) => game.logic(input, delta),
        }
    }

    fn draw(&self) -> (cmds: Vec<DrawCommand>) {
        match self {
            AnyGame::Pong(game) => game.draw(),
            AnyGame::Circles(game) => game.draw(),
            AnyGame::Avoider(game) => game.draw(),
        }
    }

    fn is_finished(&mut self) -> (result: Option<bool>)
        ensures
            final(self).kind_spec() == old(self).kind_spec(),
    {
        match self {
            AnyGame::Pong(game) => game.is_finished(),
            AnyGame::Circles(game) => game.is_finished(),
            AnyGame::Avoider(game) => game.is_finished(),
        }
    }
}

/// The games that the settings switch on, in the order in which a handler
/// holds them.
pub open spec fn enabled_kinds(settings: Settings) -> Seq<GameKind> {
    let pong = if settings.pong.is_some() {
        seq![GameKind::Pong]
    } else {
        Seq::<GameKind>::empty()
    };
    let circles = if settings.circles.is_some() {
        seq![GameKind::Circles]
    } else {
        Seq::<GameKind>::empty()
    };
    let avoider = if settings.avoider.is_some() {
        seq![GameKind::Avoider]
    } else {
        Seq::<GameKind>::empty()
    };
    pong + circles + avoider
}

/// Every game that the settings switch on can be played on the screen.
pub open spec fn all_playable(screen_size: (i32, i32), settings: Settings) -> bool {
    &&& settings.pong.is_some() ==> Pong::fits(screen_size)
    &&& settings.circles matches Some(circles) ==> Circles::playable(screen_size, circles)
    &&& settings.avoider matches Some(avoider) ==> Avoider::playable(screen_size, avoider)
}

/// `games` are fresh games of the kinds that the settings switch on, each
/// set up for the screen with its part of the settings.
pub open spec fn set_up(games: Seq<AnyGame>, screen_size: (i32, i32), settings: Settings) -> bool {
    &&& games.len() == enabled_kinds(settings).len()
    &&& forall|i: int|
        0 <= i < games.len() ==> {
            &&& (#[trigger] games[i]).kind_spec() == enabled_kinds(settings)[i]
            &&& games[i].inv()
            &&& games[i] matches AnyGame::Pong(game) ==> game.state() == Pong::initial_state(
                screen_size,
                settings.pong.unwrap(),
            )
            &&& games[i] matches AnyGame::Circles(game) ==> {
                &&& game.amount() == settings.circles.unwrap().amount
                &&& game.max_amount() == settings.circles.unwrap().max_amount
                &&& game.timer().target() == duration_nanos(settings.circles.unwrap().time_limit)
            }
            &&& games[i] matches AnyGame::Avoider(game) ==> {
                &&& game.timer().target() == duration_nanos(settings.avoider.unwrap().time_limit)
                &&& game.spawn_timer().target() == duration_nanos(
                    settings.avoider.unwrap().spawn_interval,
                )
            }
        }
}

impl GameHandler<AnyGame> {
    /// The handler for a screen and its settings: it holds the games that
    /// are switched on, has gone idle at `now`, and has nothing selected.
    /// It cannot be built where a game that is switched on cannot be
    /// played, nor where no game is switched on.
    pub fn from_settings(
        screen_size: (i32, i32),
        settings: &Settings,
        now: Duration,
        rng: StdRng,
    ) -> (result: Result<Self, HandlerError>)
        ensures
            match result {
                Err(HandlerError::Unplayable) => !all_playable(screen_size, *settings),
                Err(HandlerError::Empty) => all_playable(screen_size, *settings) && enabled_kinds(
                    *settings,
                ).len() == 0,
                Ok(handler) => {
                    &&& all_playable(screen_size, *settings)
                    &&& handler.wf()
                    &&& set_up(handler.games(), screen_size, *settings)
                    &&& handler.selection().is_none()
                    &&& handler.idle_since() == duration_nanos(now)
                    &&& handler.cooldown() == duration_nanos(settings.cooldown)
                    &&& !handler.ready_at(duration_nanos(now))
                },
            },
    {
        let mut rng = rng;
        let mut games: Vec<AnyGame> = Vec::new();
        if let Some(pong) = settings.pong {
            if !Pong::screen_fits(screen_size) {
                return Err(HandlerError::Unplayable);
            }
            games.push(AnyGame::Pong(Pong::new(screen_size, &pong, split_off(&mut rng))));
        }
        if let Some(circles) = settings.circles {
            if !Circles::is_playable(screen_size, &circles) {
                return Err(HandlerError::Unplayable);
            }
            games.push(AnyGame::Circles(Circles::new(screen_size, &circles, split_off(&mut rng))));
        }
        if let Some(avoider) = settings.avoider {
            if !Avoider::is_playable(screen_size, &avoider) {
                return Err(HandlerError::Unplayable);
            }
            games.push(AnyGame::Avoider(Avoider::new(screen_size, &avoider, split_off(&mut rng))));
        }
        GameHandler::new(games, settings.cooldown, now, rng)
    }
}

} // verus!
