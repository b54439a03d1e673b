//! The contract every mini-game satisfies, and the handler that owns the
//! games, picks one at random, drives it tick by tick and enforces the idle
//! time between two rounds.

use crate::random::random_index;
use crate::render::{draw_title, is_title_overlay, DrawCommand, Input};
use crate::util::{duration_nanos, nanos_of};
use rand::rngs::StdRng;
use std::time::Duration;
use vstd::prelude::*;

verus! {

/// A mini-game. One instance lives as long as its handler and plays round
/// after round: `Running`, then a round that is over, then `Running` again.
pub trait Game: Sized {
    /// The states the implementation accepts, which its methods keep it
    /// in. An implementation that states no model accepts none: it can be
    /// driven from unverified code only, and nothing is claimed of it.
    open spec fn inv(&self) -> bool {
        false
    }

    /// The display name.
    open spec fn name(&self) -> Seq<char> {
        Seq::empty()
    }

    /// The result of the round, once it is over and until it is reported:
    /// `Some(true)` for a loss, `Some(false)` for any other end.
    open spec fn outcome(&self) -> Option<bool> {
        None
    }

    /// `next` is a state that one simulation step may lead to from `self`,
    /// given the input and the nanoseconds that passed.
    open spec fn steps_to(&self, input: Input, delta: nat, next: Self) -> bool {
        true
    }

    /// What the game shows in its current state.
    open spec fn frame(&self) -> Seq<DrawCommand> {
        Seq::empty()
    }

    /// The display name. It never changes.
    fn get_info(&self) -> (name: &str)
        requires
            self.inv(),
        ensures
            name@ == self.name(),
    ;

    /// Advances the simulation by exactly one step.
    fn logic(&mut self, input: Input, delta: Duration)
        requires
            old(self).inv(),
        ensures
            final(self).inv(),
            final(self).name() == old(self).name(),
            old(self).steps_to(input, duration_nanos(delta), *final(self)),
    ;

    /// The render commands for the current state, which stays as it is.
    fn draw(&self) -> (cmds: Vec<DrawCommand>)
        requires
            self.inv(),
        ensures
            cmds@ == self.frame(),
    ;

    /// Reports the end of a round, and with the report starts the next one:
    /// `None` while the round goes on, else `Some(lost)`. A result that was
    /// reported is gone, so the query that follows a report finds a round
    /// that goes on. A query that finds the round going on changes nothing.
    fn is_finished(&mut self) -> (result: Option<bool>)
        requires
            old(self).inv(),
        ensures
            final(self).inv(),
            final(self).name() == old(self).name(),
            result == old(self).outcome(),
            final(self).outcome().is_none(),
            result.is_none() ==> *final(self) == *old(self),
    ;
}

/// What a query for the end of the round makes of a game, as
/// `Game::is_finished` promises it: `after` is `before` after a query that
/// was answered with `result`. The answer is the result that was waiting,
/// and it waits no longer. A query that finds the round going on changes
/// nothing.
pub open spec fn reports<G: Game>(before: G, result: Option<bool>, after: G) -> bool {
    &&& after.inv()
    &&& after.name() == before.name()
    &&& result == before.outcome()
    &&& after.outcome().is_none()
    &&& result.is_none() ==> after == before
}

/// The end of a round is reported once: of two queries with no step
/// between them, whatever the first one answers, the second one answers
/// that the round goes on, and changes nothing.
pub proof fn lemma_reported_once<G: Game>(
    before: G,
    first: Option<bool>,
    between: G,
    second: Option<bool>,
    after: G,
)
    requires
        reports(before, first, between),
        reports(between, second, after),
    ensures
        second.is_none(),
        after == between,
{
}

/// Why a handler could not be built.
#[derive(Clone, Copy, Debug, PartialEq, Eq, Structural)]
pub enum HandlerError {
    /// The collection to choose from holds nothing.
    Empty,
    /// A game that is switched on cannot be played on this screen with
    /// its settings.
    Unplayable,
}

/// Owns the games and the idle clock, and delegates each tick to the one
/// game that is selected.
pub struct GameHandler<G> {
    now: u128,
    cooldown: u128,
    game_list: Vec<G>,
    selected: Option<usize>,
    rng: StdRng,
}

impl<G: Game> GameHandler<G> {
    /// The games, in the order in which they were handed over.
    pub closed spec fn games(&self) -> Seq<G> {
        self.game_list@
    }

    /// The index of the selected game, if one is selected.
    pub closed spec fn selection(&self) -> Option<usize> {
        self.selected
    }

    /// When the handler last went idle, in nanoseconds on the caller's clock.
    pub closed spec fn idle_since(&self) -> nat {
        self.now as nat
    }

    /// The idle time that has to pass before a game may run, in nanoseconds.
    pub closed spec fn cooldown(&self) -> nat {
        self.cooldown as nat
    }

    /// There is a game to choose, the selection points at one, and every
    /// game is in a state it accepts.
    pub open spec fn wf(&self) -> bool {
        &&& self.games().len() > 0
        &&& self.selection() matches Some(i) ==> i < self.games().len()
        &&& forall|i: int| 0 <= i < self.games().len() ==> (#[trigger] self.games()[i]).inv()
    }

    /// Whether the idle time is over at `now`: strictly more than the
    /// cooldown has passed since the handler went idle.
    pub open spec fn ready_at(&self, now: nat) -> bool {
        now > self.idle_since() + self.cooldown()
    }

    /// Nothing but the selection differs between `self` and `next`.
    pub open spec fn same_but_selection(&self, next: &Self) -> bool {
        &&& next.games() == self.games()
        &&& next.idle_since() == self.idle_since()
        &&& next.cooldown() == self.cooldown()
    }

    /// A handler over `games` that went idle at `now` and has nothing
    /// selected. Fails exactly when there is no game.
    pub fn new(games: Vec<G>, cooldown: Duration, now: Duration, rng: StdRng) -> (result: Result<
        Self,
        HandlerError,
    >)
        requires
            forall|i: int| 0 <= i < games@.len() ==> (#[trigger] games@[i]).inv(),
        ensures
            result.is_err() <==> games@.len() == 0,
            result matches Err(e) ==> e == HandlerError::Empty,
            result matches Ok(handler) ==> {
                &&& handler.wf()
                &&& handler.games() == games@
                &&& handler.selection().is_none()
                &&& handler.idle_since() == duration_nanos(now)
                &&& handler.cooldown() == duration_nanos(cooldown)
                &&& !handler.ready_at(duration_nanos(now))
            },
    {
        if games.len() == 0 {
            return Err(HandlerError::Empty);
        }
        Ok(
            GameHandler {
                now: nanos_of(now),
                cooldown: nanos_of(cooldown),
                game_list: games,
                selected: None,
                rng,
            },
        )
    }

    /// Whether the idle time is over at `now`.
    pub fn ready(&self, now: Duration) -> (ready: bool)
        ensures
            ready == self.ready_at(duration_nanos(now)),
    {
        let now = nanos_of(now);
        now >= self.now && now - self.now > self.cooldown
    }

    /// Selects one of the games at random, whatever was selected before.
    pub fn select_game(&mut self)
        requires
            old(self).wf(),
        ensures
            final(self).wf(),
            old(self).same_but_selection(final(self)),
            final(self).selection().is_some(),
            final(self).selection().unwrap() < old(self).games().len(),
            old(self).games().len() == 1 ==> final(self).selection() == Some(0usize),
    {
        let index = random_index(&mut self.rng, self.game_list.len());
        self.selected = Some(index);
    }

    /// One tick of the selected game: its logic, then its frame, then the
    /// title overlay with its name. Without a selection nothing happens and
    /// nothing is drawn. No other game is touched.
    /// What one tick makes of the handler: `next` is `self` after a tick of
    /// `delta` nanoseconds under `input`, and `cmds` is what the tick drew.
    /// The selected game made one step and was drawn in the state it
    /// reached, under the title overlay with its name. Without a selection
    /// nothing changed and nothing was drawn. No other game was touched.
    pub open spec fn framed(&self, input: Input, delta: nat, next: &Self, cmds: Seq<DrawCommand>) -> bool {
        &&& next.selection() == self.selection()
        &&& next.idle_since() == self.idle_since()
        &&& next.cooldown() == self.cooldown()
        &&& next.games().len() == self.games().len()
        &&& forall|j: int|
            0 <= j < self.games().len() && self.selection() != Some(j as usize)
                ==> #[trigger] next.games()[j] == self.games()[j]
        &&& match self.selection() {
            None => cmds.len() == 0,
            Some(i) => {
                let before = self.games()[i as int];
                let after = next.games()[i as int];
                &&& before.steps_to(input, delta, after)
                &&& cmds.len() == after.frame().len() + 6
                &&& cmds.subrange(0, after.frame().len() as int) == after.frame()
                &&& is_title_overlay(
                    cmds.subrange(after.frame().len() as int, cmds.len() as int),
                    before.name(),
                )
            },
        }
    }

    /// What a query for the end of the round makes of the handler: `next`
    /// is `self` after a query at `now` that was answered with `result`.
    /// The answer is the selected game's, which has then started its next
    /// round; with it the handler went idle at `now` and selected a game
    /// for the round after the idle time. Without a selection, and while
    /// the round goes on, nothing changed and the answer is `None`.
    pub open spec fn concluded(&self, now: nat, next: &Self, result: Option<bool>) -> bool {
        &&& next.cooldown() == self.cooldown()
        &&& next.games().len() == self.games().len()
        &&& forall|j: int|
            0 <= j < self.games().len() && self.selection() != Some(j as usize)
                ==> #[trigger] next.games()[j] == self.games()[j]
        &&& match self.selection() {
            None => result.is_none(),
            Some(i) => {
                &&& result == self.games()[i as int].outcome()
                &&& next.games()[i as int].outcome().is_none()
                &&& next.games()[i as int].name() == self.games()[i as int].name()
            },
        }
        &&& match result {
            None => {
                &&& next.selection() == self.selection()
                &&& next.idle_since() == self.idle_since()
                &&& next.games() == self.games()
            },
            Some(_) => {
                &&& next.selection().is_some()
                &&& next.selection().unwrap() < self.games().len()
                &&& next.idle_since() == now
                &&& !next.ready_at(now)
            },
        }
    }

    /// One tick of the selected game: its logic, then its frame, then the
    /// title overlay with its name.
    pub fn do_frame(&mut self, delta: Duration, input: Input) -> (cmds: Vec<DrawCommand>)
        requires
            old(self).wf(),
        ensures
            final(self).wf(),
            old(self).framed(input, duration_nanos(delta), final(self), cmds@),
    {
        match self.selected {
            None => {
                assert(self.game_list@ =~= old(self).game_list@);
                Vec::new()
            },
            Some(index) => {
                let game = &mut self.game_list[index];
                game.logic(input, delta);
                let mut cmds = game.draw();
                let mut title = draw_title(game.get_info());
                let ghost scene = cmds@;
                let ghost overlay = title@;
                cmds.append(&mut title);
                proof {
                    assert(cmds@.subrange(0, scene.len() as int) =~= scene);
                    assert(cmds@.subrange(scene.len() as int, cmds@.len() as int) =~= overlay);
                }
                cmds
            },
        }
    }

    /// Asks the selected game whether its round is over, and goes idle at
    /// `now` if it is.
    pub fn finished(&mut self, now: Duration) -> (result: Option<bool>)
        requires
            old(self).wf(),
        ensures
            final(self).wf(),
            old(self).concluded(duration_nanos(now), final(self), result),
    {
        if let Some(index) = self.selected {
            let game = &mut self.game_list[index];
            if let Some(game_over) = game.is_finished() {
                self.now = nanos_of(now);
                self.select_game();
                return Some(game_over);
            }
            assert(self.game_list@ =~= old(self).game_list@);
        }
        None
    }

    /// The index of the selected game, if one is selected.
    pub fn selected(&self) -> (selected: Option<usize>)
        ensures
            selected == self.selection(),
    {
        self.selected
    }

    /// The games, in the order in which they were handed over.
    pub fn game_list(&self) -> (games: &Vec<G>)
        ensures
            games@ == self.games(),
    {
        &self.game_list
    }
}

/// A tick is one game's alone. Without a selection no game changes and
/// nothing is drawn; with one, every game but the selected one is after
/// the tick what it was before.
pub proof fn lemma_exclusive_delegation<G: Game>(
    before: GameHandler<G>,
    input: Input,
    delta: nat,
    after: GameHandler<G>,
    cmds: Seq<DrawCommand>,
)
    requires
        before.framed(input, delta, &after, cmds),
    ensures
        before.selection().is_none() ==> after.games() == before.games() && cmds.len() == 0,
        forall|j: int|
            0 <= j < before.games().len() && before.selection() != Some(j as usize)
                ==> after.games()[j] == before.games()[j],
        after.games().len() == before.games().len(),
        after.selection() == before.selection(),
{
    if before.selection().is_none() {
        assert(after.games() =~= before.games());
    }
}

/// The idle time gates the games. A handler is not ready at the moment it
/// went idle, nor at any moment up to a full cooldown later; it is ready
/// at every moment after that, and once it is ready it stays ready as
/// time goes on, until it goes idle again.
pub proof fn lemma_cooldown_gating<G: Game>(handler: GameHandler<G>, now: nat, later: nat)
    requires
        now <= later,
    ensures
        !handler.ready_at(handler.idle_since()),
        handler.ready_at(now) <==> now >= handler.idle_since() && now - handler.idle_since()
            > handler.cooldown(),
        handler.ready_at(now) ==> handler.ready_at(later),
{
}

} // verus!
