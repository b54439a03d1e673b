//! One tick of the overlay: which of the two handlers gets the tick, and
//! what is drawn in it.

use crate::game_handler::{Game, GameHandler};
use crate::loss_handler::{Effect, LossHandler};
use crate::render::{DrawCommand, Input};
use crate::util::duration_nanos;
use std::time::Duration;
use vstd::prelude::*;

verus! {

/// What a tick makes of the two handlers once the loss handler, in the
/// state `effects`, has answered that it is idle. The game handler is asked
/// for the end of the round. A round that ended in a loss starts an effect,
/// any other end draws nothing. While the round goes on, or while nothing
/// is selected, the game gets the tick if the idle time is over.
pub open spec fn games_turn<G: Game, E: Effect>(
    games: &GameHandler<G>,
    effects: &LossHandler<E>,
    input: Input,
    delta: nat,
    now: nat,
    next_games: &GameHandler<G>,
    next_effects: &LossHandler<E>,
    cmds: Seq<DrawCommand>,
) -> bool {
    exists|asked: GameHandler<G>, result: Option<bool>|
        {
            &&& #[trigger] games.concluded(now, &asked, result)
            &&& asked.wf()
            &&& match result {
                Some(true) => *next_games == asked && effects.played(delta, next_effects, cmds),
                Some(false) => *next_games == asked && *next_effects == *effects && cmds.len() == 0,
                None => {
                    &&& *next_effects == *effects
                    &&& if asked.ready_at(now) {
                        asked.framed(input, delta, next_games, cmds)
                    } else {
                        *next_games == asked && cmds.len() == 0
                    }
                },
            }
        }
}

/// One tick of the overlay at `now`, `delta` after the last one. While an
/// effect is playing the tick is the effect's alone: no game is asked,
/// advanced or drawn. Otherwise the tick goes on as `games_turn` says.
pub fn tick<G: Game, E: Effect>(
    games: &mut GameHandler<G>,
    effects: &mut LossHandler<E>,
    input: Input,
    delta: Duration,
    now: Duration,
) -> (cmds: Vec<DrawCommand>)
    requires
        old(games).wf(),
        old(effects).wf(),
    ensures
        final(games).wf(),
        final(effects).wf(),
        old(effects).blocks() ==> {
            &&& *final(games) == *old(games)
            &&& old(effects).played(duration_nanos(delta), final(effects), cmds@)
        },
        !old(effects).blocks() ==> exists|idle: LossHandler<E>|
            {
                &&& #[trigger] old(effects).queried(&idle)
                &&& idle.wf()
                &&& !idle.playing()
                &&& games_turn(
                    old(games),
                    &idle,
                    input,
                    duration_nanos(delta),
                    duration_nanos(now),
                    final(games),
                    final(effects),
                    cmds@,
                )
            },
{
    if !effects.finished() {
        return effects.do_effect(delta);
    }
    let ghost idle = *effects;
    let result = games.finished(now);
    let ghost asked = *games;
    let cmds = match result {
        Some(lost) => {
            if lost {
                effects.do_effect(delta)
            } else {
                Vec::new()
            }
        },
        None => {
            if games.ready(now) {
                games.do_frame(delta, input)
            } else {
                Vec::new()
            }
        },
    };
    proof {
        assert(old(games).concluded(duration_nanos(now), &asked, result));
        assert(games_turn(
            old(games),
            &idle,
            input,
            duration_nanos(delta),
            duration_nanos(now),
            games,
            effects,
            cmds@,
        ));
        assert(old(effects).queried(&idle));
    }
    cmds
}

} // verus!
