//! The contract every loss effect satisfies, and the handler that owns the
//! effects, picks one at random and plays it until it reports its end.

use crate::game_handler::HandlerError;
use crate::random::random_index;
use crate::render::DrawCommand;
use crate::util::duration_nanos;
use rand::rngs::StdRng;
use std::time::Duration;
use vstd::prelude::*;

verus! {

/// A full-screen effect without interaction. One instance is played again
/// and again: it is driven by its draw calls alone.
pub trait Effect: Sized {
    /// The states the implementation accepts, which its methods keep it
    /// in. An implementation that states no model accepts none: it can be
    /// driven from unverified code only, and nothing is claimed of it.
    open spec fn inv(&self) -> bool {
        false
    }

    /// The playback has run to its end and the end was not reported yet.
    open spec fn completed(&self) -> bool {
        false
    }

    /// The effect stands at the start of a playback.
    open spec fn rewound(&self) -> bool {
        true
    }

    /// `next` is a state that a draw call may lead to from `self` after
    /// `delta` nanoseconds.
    open spec fn plays_to(&self, delta: nat, next: Self) -> bool {
        true
    }

    /// What the effect shows in its current state.
    open spec fn frame(&self) -> Seq<DrawCommand> {
        Seq::empty()
    }

    /// Advances the playback by `delta` and renders the state reached.
    fn draw(&mut self, delta: Duration) -> (cmds: Vec<DrawCommand>)
        requires
            old(self).inv(),
        ensures
            final(self).inv(),
            old(self).plays_to(duration_nanos(delta), *final(self)),
            cmds@ == final(self).frame(),
    ;

    /// Reports the end of a playback, and with the report rewinds, so that
    /// the same instance can be played again. While the playback goes on the
    /// query changes nothing.
    fn is_finished(&mut self) -> (done: bool)
        requires
            old(self).inv(),
        ensures
            final(self).inv(),
            done == old(self).completed(),
            done ==> final(self).rewound(),
            !done ==> *final(self) == *old(self),
    ;
}

/// Owns the effects and plays the selected one. It is either playing, from
/// the first draw of an effect until that effect's end has been observed,
/// or idle.
pub struct LossHandler<E> {
    effect_list: Vec<E>,
    selected: Option<usize>,
    finished: bool,
    rng: StdRng,
}

impl<E: Effect> LossHandler<E> {
    /// The effects, in the order in which they were handed over.
    pub closed spec fn effects(&self) -> Seq<E> {
        self.effect_list@
    }

    /// The index of the selected effect, if one is selected.
    pub closed spec fn selection(&self) -> Option<usize> {
        self.selected
    }

    /// An effect has been drawn and its end has not been observed since.
    pub closed spec fn playing(&self) -> bool {
        !self.finished
    }

    /// There is an effect to choose, the selection points at one, and every
    /// effect is in a state it accepts.
    pub open spec fn wf(&self) -> bool {
        &&& self.effects().len() > 0
        &&& self.selection() matches Some(i) ==> i < self.effects().len()
        &&& forall|i: int| 0 <= i < self.effects().len() ==> (#[trigger] self.effects()[i]).inv()
    }

    /// An idle handler over `effects` with nothing selected. Fails exactly
    /// when there is no effect.
    pub fn new(effects: Vec<E>, rng: StdRng) -> (result: Result<Self, HandlerError>)
        requires
            forall|i: int| 0 <= i < effects@.len() ==> (#[trigger] effects@[i]).inv(),
        ensures
            result.is_err() <==> effects@.len() == 0,
            result matches Err(e) ==> e == HandlerError::Empty,
            result matches Ok(handler) ==> {
                &&& handler.wf()
                &&& handler.effects() == effects@
                &&& handler.selection().is_none()
                &&& !handler.playing()
            },
    {
        if effects.len() == 0 {
            return Err(HandlerError::Empty);
        }
        Ok(LossHandler { effect_list: effects, selected: None, finished: true, rng })
    }

    /// Selects one of the effects at random, whatever was selected before.
    pub fn select_effect(&mut self)
        requires
            old(self).wf(),
        ensures
            final(self).wf(),
            final(self).effects() == old(self).effects(),
            final(self).playing() == old(self).playing(),
            final(self).selection().is_some(),
            final(self).selection().unwrap() < old(self).effects().len(),
            old(self).effects().len() == 1 ==> final(self).selection() == Some(0usize),
    {
        let index = random_index(&mut self.rng, self.effect_list.len());
        self.selected = Some(index);
    }

    /// What one tick makes of the handler: `next` is `self` after a tick of
    /// `delta` nanoseconds, and `cmds` is what the tick drew. The selected
    /// effect advanced and was drawn, and counts as playing from now on.
    /// Without a selection nothing changed and nothing was drawn. No other
    /// effect was touched.
    pub open spec fn played(&self, delta: nat, next: &Self, cmds: Seq<DrawCommand>) -> bool {
        &&& next.selection() == self.selection()
        &&& next.effects().len() == self.effects().len()
        &&& forall|j: int|
            0 <= j < self.effects().len() && self.selection() != Some(j as usize)
                ==> #[trigger] next.effects()[j] == self.effects()[j]
        &&& match self.selection() {
            None => cmds.len() == 0 && next.playing() == self.playing(),
            Some(i) => {
                let before = self.effects()[i as int];
                let after = next.effects()[i as int];
                &&& next.playing()
                &&& before.plays_to(delta, after)
                &&& cmds == after.frame()
            },
        }
    }

    /// Whether the selected effect has run to its end.
    pub open spec fn effect_over(&self) -> bool {
        match self.selection() {
            Some(i) => self.effects()[i as int].completed(),
            None => false,
        }
    }

    /// Whether an effect is playing and has not run to its end: the query
    /// for the end will find the handler busy.
    pub open spec fn blocks(&self) -> bool {
        self.playing() && !self.effect_over()
    }

    /// What a query for the end makes of the handler: `next` is `self`
    /// after the query. If the selected effect had run to its end, it is
    /// rewound, the handler is idle, and an effect is selected for the next
    /// loss. Otherwise nothing changed.
    pub open spec fn queried(&self, next: &Self) -> bool {
        &&& next.effects().len() == self.effects().len()
        &&& forall|j: int|
            0 <= j < self.effects().len() && self.selection() != Some(j as usize)
                ==> #[trigger] next.effects()[j] == self.effects()[j]
        &&& if self.effect_over() {
            &&& !next.playing()
            &&& next.selection().is_some()
            &&& next.selection().unwrap() < self.effects().len()
            &&& next.effects()[self.selection().unwrap() as int].rewound()
        } else {
            &&& next.playing() == self.playing()
            &&& next.selection() == self.selection()
            &&& next.effects() == self.effects()
        }
    }

    /// One tick of the selected effect.
    pub fn do_effect(&mut self, delta: Duration) -> (cmds: Vec<DrawCommand>)
        requires
            old(self).wf(),
        ensures
            final(self).wf(),
            old(self).played(duration_nanos(delta), final(self), cmds@),
    {
        match self.selected {
            None => {
                assert(self.effect_list@ =~= old(self).effect_list@);
                Vec::new()
            },
            Some(index) => {
                self.finished = false;
                let effect = &mut self.effect_list[index];
                effect.draw(delta)
            },
        }
    }

    /// Whether no effect is playing, after the selected effect was asked
    /// for its end.
    pub fn finished(&mut self) -> (idle: bool)
        requires
            old(self).wf(),
        ensures
            final(self).wf(),
            old(self).queried(final(self)),
            idle == !final(self).playing(),
            idle == !old(self).blocks(),
    {
        if let Some(index) = self.selected {
            let effect = &mut self.effect_list[index];
            let effect_over = effect.is_finished();
            if effect_over {
                self.select_effect();
                self.finished = true;
            } else {
                assert(self.effect_list@ =~= old(self).effect_list@);
            }
        }
        self.finished
    }

    /// The index of the selected effect, if one is selected.
    pub fn selected(&self) -> (selected: Option<usize>)
        ensures
            selected == self.selection(),
    {
        self.selected
    }

    /// The effects, in the order in which they were handed over.
    pub fn effect_list(&self) -> (effects: &Vec<E>)
        ensures
            effects@ == self.effects(),
    {
        &self.effect_list
    }
}

} // verus!
