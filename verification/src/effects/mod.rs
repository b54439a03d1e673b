//! The effects that can follow a lost round, and the handler that is set
//! up with them.

pub mod screen_flash;

use crate::effects::screen_flash::Flash;
use crate::loss_handler::LossHandler;
use crate::util::span_of;
use rand::rngs::StdRng;
use vstd::prelude::*;

verus! {

/// How long the flash after a lost round lasts, in nanoseconds.
pub const FLASH_NANOS: u64 = 5_000_000_000;

impl LossHandler<Flash> {
    /// The handler for a screen: idle, with nothing selected, over one
    /// flash of five seconds that covers the screen.
    pub fn for_screen(screen_size: (i32, i32), rng: StdRng) -> (handler: Self)
        ensures
            handler.wf(),
            handler.effects().len() == 1,
            handler.effects()[0].size() == (screen_size.0 as int, screen_size.1 as int),
            handler.effects()[0].timer().target() == FLASH_NANOS,
            handler.effects()[0].timer().elapsed() == 0,
            handler.selection().is_none(),
            !handler.playing(),
    {
        let mut effects: Vec<Flash> = Vec::new();
        effects.push(Flash::new(screen_size, span_of(5_000_000_000)));
        match LossHandler::new(effects, rng) {
            Ok(handler) => handler,
            Err(_) => unreached(),
        }
    }
}

} // verus!
