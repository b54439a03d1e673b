//! A dark red screen with a countdown of the seconds that are left.

use crate::loss_handler::Effect;
use crate::render::{Color, DrawCommand};
use crate::util::{duration_nanos, Timer};
use std::time::Duration;
use vstd::prelude::*;

verus! {

/// The screen flash: it covers the screen for as long as its timer runs.
pub struct Flash {
    width: i32,
    height: i32,
    duration: Timer,
}

/// The whole number nearest to zero among `n / 2` and its neighbours: half
/// of `n`, with the fraction dropped.
pub open spec fn half(n: int) -> int {
    if n >= 0 {
        n / 2
    } else {
        -((-n) / 2)
    }
}

impl Flash {
    /// The size of the area the flash covers.
    pub closed spec fn size(&self) -> (int, int) {
        (self.width as int, self.height as int)
    }

    /// The timer that measures the playback.
    pub closed spec fn timer(&self) -> Timer {
        self.duration
    }

    /// The two commands of a flash over a `width` by `height` screen whose
    /// timer reports `seconds`.
    pub open spec fn frame_of(width: int, height: int, seconds: int) -> Seq<DrawCommand> {
        seq![
            DrawCommand::Rectangle {
                x: 0,
                y: 0,
                width: width as i32,
                height: height as i32,
                color: Color::DarkRed,
            },
            DrawCommand::CenteredNumber {
                value: seconds as i32,
                center_x: half(width) as i32,
                shift_x: 2,
                y: 10,
                size: 50,
                color: Color::Black,
            },
        ]
    }

    /// A flash over the whole screen that lasts `duration`.
    pub fn new(screen_size: (i32, i32), duration: Duration) -> (flash: Flash)
        ensures
            flash.size() == (screen_size.0 as int, screen_size.1 as int),
            flash.timer().target() == duration_nanos(duration),
            flash.timer().elapsed() == 0,
    {
        Flash { width: screen_size.0, height: screen_size.1, duration: Timer::new(duration) }
    }

    /// The timer that measures the playback.
    pub fn clock(&self) -> (timer: &Timer)
        ensures
            *timer == self.timer(),
    {
        &self.duration
    }

    /// Advances the timer by `delta`, then renders the screen and the
    /// seconds that the timer reports after the advance.
    pub fn draw_frame(&mut self, delta: Duration) -> (cmds: Vec<DrawCommand>)
        ensures
            final(self).size() == old(self).size(),
            old(self).timer().after(duration_nanos(delta), final(self).timer()),
            cmds@ == Self::frame_of(
                old(self).size().0,
                old(self).size().1,
                final(self).timer().seconds_left(),
            ),
    {
        self.duration.update(delta);
        let seconds = self.duration.time_left();
        let center_x: i32 = if self.width >= 0 {
            self.width / 2
        } else if self.width == i32::MIN {
            -1_073_741_824
        } else {
            -((-self.width) / 2)
        };
        let mut cmds: Vec<DrawCommand> = Vec::new();
        cmds.push(
            DrawCommand::Rectangle {
                x: 0,
                y: 0,
                width: self.width,
                height: self.height,
                color: Color::DarkRed,
            },
        );
        cmds.push(
            DrawCommand::CenteredNumber {
                value: seconds,
                center_x,
                shift_x: 2,
                y: 10,
                size: 50,
                color: Color::Black,
            },
        );
        assert(cmds@ =~= Self::frame_of(
            self.width as int,
            self.height as int,
            self.duration.seconds_left(),
        ));
        cmds
    }
}

impl Effect for Flash {
    open spec fn inv(&self) -> bool {
        true
    }

    open spec fn completed(&self) -> bool {
        self.timer().elapsed() >= self.timer().target()
    }

    open spec fn rewound(&self) -> bool {
        self.timer().elapsed() == 0
    }

    open spec fn plays_to(&self, delta: nat, next: Self) -> bool {
        &&& next.size() == self.size()
        &&& self.timer().after(delta, next.timer())
    }

    open spec fn frame(&self) -> Seq<DrawCommand> {
        Self::frame_of(self.size().0, self.size().1, self.timer().seconds_left())
    }

    fn draw(&mut self, delta: Duration) -> (cmds: Vec<DrawCommand>) {
        self.draw_frame(delta)
    }

    fn is_finished(&mut self) -> (done: bool)
        ensures
            final(self).size() == old(self).size(),
            final(self).timer().target() == old(self).timer().target(),
    {
        if self.duration.is_finished() {
            self.duration.reset();
            true
        } else {
            false
        }
    }
}

} // verus!
