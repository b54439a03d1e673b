//! Circle popping: a number of circles is laid out on the field, and the
//! player has to click them all away before the time is up. Each round
//! that follows has one circle more, up to a limit.

use crate::game_handler::Game;
use crate::motion::{
    clamp, distance_squared, distance_squared_spec, from_pixel, from_pixel_spec, halved, pixel,
    pixel_spec, quotient, saturate, tenths, towards, towards_spec, within, within_spec, Point,
    Rect,
};
use crate::random::random_index;
use crate::render::{Color, DrawCommand, Input};
use crate::util::{duration_nanos, Timer};
use rand::rngs::StdRng;
use std::time::Duration;
use vstd::prelude::*;

verus! {

/// The radius of every circle that is laid out.
pub const CIRCLE_SIZE: i32 = 50_000;

/// The distance that the centres of two circles are kept apart.
pub const CIRCLE_REACH: i32 = 100_000;

/// A circle to click.
#[derive(Clone, Copy, Debug, PartialEq, Eq, Structural)]
pub struct Circle {
    pub center: Point,
    pub radius: i32,
}

/// How many circles the first round has, how many a round can have at
/// most, and how long a round may take.
#[derive(Clone, Copy, Debug)]
pub struct CirclesSettings {
    pub amount: i32,
    pub max_amount: i32,
    pub time_limit: Duration,
}

/// Where a circle that was to be laid out at `p` goes because of `circle`:
/// less than the reach away from its centre, it is moved to that distance,
/// on the line from that centre through `p`; else it stays.
pub open spec fn pushed_spec(circle: Circle, p: Point) -> Point {
    if within_spec(circle.center, p, CIRCLE_REACH as int) {
        let v = towards_spec(circle.center, p, CIRCLE_REACH as int);
        Point { x: clamp(circle.center.x + v.x) as i32, y: clamp(circle.center.y + v.y) as i32 }
    } else {
        p
    }
}

/// Where a circle that was to be laid out at `p` ends up among `circles`:
/// each of them in turn pushes it away.
pub open spec fn settled_spec(circles: Seq<Circle>, p: Point) -> Point
    decreases circles.len(),
{
    if circles.len() == 0 {
        p
    } else {
        pushed_spec(circles.last(), settled_spec(circles.drop_last(), p))
    }
}

/// Where a circle that was to be laid out at `p` ends up among `circles`.
pub fn settled(circles: &Vec<Circle>, p: Point) -> (q: Point)
    ensures
        q == settled_spec(circles@, p),
{
    let mut q = p;
    let mut i: usize = 0;
    while i < circles.len()
        invariant
            i <= circles.len(),
            q == settled_spec(circles@.subrange(0, i as int), p),
        decreases circles.len() - i,
    {
        let circle = circles[i];
        assert(circles@.subrange(0, i + 1).drop_last() =~= circles@.subrange(0, i as int));
        if within(circle.center, q, 100_000) {
            let v = towards(circle.center, q, 100_000);
            q = Point {
                x: saturate(circle.center.x as i128 + v.x as i128),
                y: saturate(circle.center.y as i128 + v.y as i128),
            };
        }
        i += 1;
    }
    assert(circles@.subrange(0, circles@.len() as int) =~= circles@);
    q
}

/// The circle `circles[i]` was drawn at `(x, y)`, inside the bounds that
/// `rect` gives, and then pushed away by the circles before it.
pub open spec fn drawn_at(circles: Seq<Circle>, i: int, rect: Rect, x: int, y: int) -> bool {
    &&& rect.x <= x < rect.width
    &&& rect.y <= y < rect.height
    &&& circles[i].center == settled_spec(circles.subrange(0, i), Point { x: x as i32, y: y as i32 })
}

/// `circles` is a layout for `rect`: every circle has the standard radius
/// and was drawn somewhere inside the bounds.
pub open spec fn laid_out(circles: Seq<Circle>, rect: Rect) -> bool {
    forall|i: int|
        0 <= i < circles.len() ==> {
            &&& (#[trigger] circles[i]).radius == CIRCLE_SIZE
            &&& exists|x: int, y: int| #[trigger] drawn_at(circles, i, rect, x, y)
        }
}

/// The bounds a layout can be drawn in are not empty.
pub open spec fn has_room(rect: Rect) -> bool {
    rect.x < rect.width && rect.y < rect.height
}

/// Lays out `amount` circles at random. A coordinate is drawn from the
/// corner of `rect` up to, not from there over, its width or height.
pub fn place_circles(amount: i32, rect: Rect, rng: &mut StdRng) -> (circles: Vec<Circle>)
    requires
        amount > 0 ==> has_room(rect),
    ensures
        circles@.len() == if amount > 0 {
            amount as int
        } else {
            0
        },
        laid_out(circles@, rect),
{
    let mut circles: Vec<Circle> = Vec::new();
    let mut i: i32 = 0;
    while i < amount
        invariant
            0 <= i,
            amount > 0 ==> i <= amount,
            amount <= 0 ==> i == 0,
            amount > 0 ==> has_room(rect),
            circles@.len() == i,
            laid_out(circles@, rect),
        decreases amount - i,
    {
        let span_x = (rect.width as i64 - rect.x as i64) as usize;
        let span_y = (rect.height as i64 - rect.y as i64) as usize;
        let x: i32 = (rect.x as i64 + random_index(rng, span_x) as i64) as i32;
        let y: i32 = (rect.y as i64 + random_index(rng, span_y) as i64) as i32;
        let center = settled(&circles, Point { x, y });
        let ghost before = circles@;
        circles.push(Circle { center, radius: 50_000 });
        proof {
            assert(circles@.subrange(0, i as int) =~= before);
            assert(drawn_at(circles@, i as int, rect, x as int, y as int));
            assert forall|j: int| 0 <= j < circles@.len() implies {
                &&& (#[trigger] circles@[j]).radius == CIRCLE_SIZE
                &&& exists|x: int, y: int| #[trigger] drawn_at(circles@, j, rect, x, y)
            } by {
                if j < i {
                    assert(before[j] == circles@[j]);
                    let (px, py) = choose|px: int, py: int| #[trigger]
                        drawn_at(before, j, rect, px, py);
                    assert(before.subrange(0, j) =~= circles@.subrange(0, j));
                    assert(drawn_at(circles@, j, rect, px, py));
                }
            }
        }
        i += 1;
    }
    circles
}

/// Whether a click at `p` hits `circle`: it is no further from the centre
/// than the radius.
pub open spec fn hit_spec(circle: Circle, p: Point) -> bool {
    circle.radius >= 0 && distance_squared_spec(circle.center, p) <= circle.radius * circle.radius
}

/// Whether a click at `p` hits `circle`.
pub fn hit(circle: Circle, p: Point) -> (hit: bool)
    ensures
        hit == hit_spec(circle, p),
{
    if circle.radius < 0 {
        return false;
    }
    let r: u128 = circle.radius as u128;
    assert(r * r <= 0x8000_0000 * 0x8000_0000) by (nonlinear_arith)
        requires
            r <= 0x8000_0000,
    ;
    distance_squared(circle.center, p) <= r * r
}

/// The circles that a click at `p` leaves, in their order.
pub open spec fn kept_spec(circles: Seq<Circle>, p: Point) -> Seq<Circle>
    decreases circles.len(),
{
    if circles.len() == 0 {
        circles
    } else if hit_spec(circles.last(), p) {
        kept_spec(circles.drop_last(), p)
    } else {
        kept_spec(circles.drop_last(), p).push(circles.last())
    }
}

/// The circles that a click at `p` leaves, in their order.
pub fn kept(circles: &Vec<Circle>, p: Point) -> (rest: Vec<Circle>)
    ensures
        rest@ == kept_spec(circles@, p),
{
    let mut rest: Vec<Circle> = Vec::new();
    let mut i: usize = 0;
    while i < circles.len()
        invariant
            i <= circles.len(),
            rest@ == kept_spec(circles@.subrange(0, i as int), p),
        decreases circles.len() - i,
    {
        assert(circles@.subrange(0, i + 1).drop_last() =~= circles@.subrange(0, i as int));
        if !hit(circles[i], p) {
            rest.push(circles[i]);
        }
        i += 1;
    }
    assert(circles@.subrange(0, circles@.len() as int) =~= circles@);
    rest
}

/// The number of circles of the round after one with `amount`: one more,
/// but at least one and at most `max_amount`.
pub open spec fn next_amount_spec(amount: int, max_amount: int) -> int {
    if amount + 1 < 1 {
        1
    } else if amount + 1 > max_amount {
        max_amount
    } else {
        amount + 1
    }
}

/// The number of circles of the round after one with `amount`.
pub fn next_amount(amount: i32, max_amount: i32) -> (next: i32)
    requires
        max_amount >= 1,
    ensures
        next == next_amount_spec(amount as int, max_amount as int),
{
    if amount < 0 {
        1
    } else if amount >= max_amount {
        max_amount
    } else {
        amount + 1
    }
}

/// The field on a screen: it leaves a tenth of the screen free on every
/// side.
pub open spec fn field_spec(screen_size: (i32, i32)) -> Rect {
    Rect {
        x: clamp(screen_size.0 * 100) as i32,
        y: clamp(screen_size.1 * 100) as i32,
        width: clamp(screen_size.0 * 800) as i32,
        height: clamp(screen_size.1 * 800) as i32,
    }
}

/// The field on a screen.
pub fn field(screen_size: (i32, i32)) -> (rect: Rect)
    ensures
        rect == field_spec(screen_size),
{
    Rect {
        x: saturate(screen_size.0 as i128 * 100),
        y: saturate(screen_size.1 as i128 * 100),
        width: saturate(screen_size.0 as i128 * 800),
        height: saturate(screen_size.1 as i128 * 800),
    }
}

/// The command that shows a circle.
pub open spec fn circle_shape_spec(circle: Circle) -> DrawCommand {
    DrawCommand::Circle {
        x: pixel_spec(circle.center.x as int) as i32,
        y: pixel_spec(circle.center.y as int) as i32,
        radius_tenths: quotient(circle.radius as int, 100) as i32,
        color: Color::Red,
    }
}

/// One of the three writings of the countdown above a field: `shift` to
/// the right of the middle and `drop` below the line `base` pixels under
/// the top of the field.
pub open spec fn countdown_spec(
    rect: Rect,
    seconds: int,
    shift: int,
    base: int,
    drop: int,
    color: Color,
) -> DrawCommand {
    DrawCommand::CenteredNumber {
        value: seconds as i32,
        center_x: quotient(pixel_spec(clamp(rect.x * 2 + rect.width)), 2) as i32,
        shift_x: shift as i32,
        y: clamp(pixel_spec(rect.y as int) + base + drop) as i32,
        size: 50,
        color,
    }
}

/// One of the three writings of the countdown above a field.
pub fn countdown(rect: Rect, seconds: i32, shift: i32, base: i32, drop: i32, color: Color) -> (cmd:
    DrawCommand)
    ensures
        cmd == countdown_spec(rect, seconds as int, shift as int, base as int, drop as int, color),
{
    DrawCommand::CenteredNumber {
        value: seconds,
        center_x: halved(pixel(saturate(rect.x as i128 * 2 + rect.width as i128))),
        shift_x: shift,
        y: saturate(pixel(rect.y) as i128 + base as i128 + drop as i128),
        size: 50,
        color,
    }
}

/// The countdown as it is written above a field: twice in black as a
/// shadow, then in red.
pub open spec fn countdown_overlay_spec(rect: Rect, seconds: int, base: int) -> Seq<DrawCommand> {
    seq![
        countdown_spec(rect, seconds, 2, base, 1, Color::Black),
        countdown_spec(rect, seconds, -2, base, -1, Color::Black),
        countdown_spec(rect, seconds, 0, base, 0, Color::Red),
    ]
}

/// Appends the countdown to `cmds`.
pub fn push_countdown(cmds: &mut Vec<DrawCommand>, rect: Rect, seconds: i32, base: i32)
    ensures
        final(cmds)@ == old(cmds)@ + countdown_overlay_spec(rect, seconds as int, base as int),
{
    cmds.push(countdown(rect, seconds, 2, base, 1, Color::Black));
    cmds.push(countdown(rect, seconds, -2, base, -1, Color::Black));
    cmds.push(countdown(rect, seconds, 0, base, 0, Color::Red));
    assert(cmds@ =~= old(cmds)@ + countdown_overlay_spec(rect, seconds as int, base as int));
}

/// The game: the circles that are left, the time they have to be clicked
/// in, and what the next round will need.
pub struct Circles {
    timer: Timer,
    amount: i32,
    max_amount: i32,
    circles: Vec<Circle>,
    game_size: Rect,
    lost: bool,
    rng: StdRng,
}

impl Circles {
    /// The timer of the round.
    pub closed spec fn timer(&self) -> Timer {
        self.timer
    }

    /// The number of circles the round started with.
    pub closed spec fn amount(&self) -> int {
        self.amount as int
    }

    /// The number of circles a round can have at most.
    pub closed spec fn max_amount(&self) -> int {
        self.max_amount as int
    }

    /// The circles that are left.
    pub closed spec fn circles(&self) -> Seq<Circle> {
        self.circles@
    }

    /// The field.
    pub closed spec fn field(&self) -> Rect {
        self.game_size
    }

    /// The time ran out in this round.
    pub closed spec fn lost(&self) -> bool {
        self.lost
    }

    /// Whether a game can be played on this screen with these settings:
    /// there is room to lay out circles, and a round can have one.
    pub open spec fn playable(screen_size: (i32, i32), settings: CirclesSettings) -> bool {
        has_room(field_spec(screen_size)) && settings.max_amount >= 1
    }

    /// Whether a game can be played on this screen with these settings.
    pub fn is_playable(screen_size: (i32, i32), settings: &CirclesSettings) -> (ok: bool)
        ensures
            ok == Self::playable(screen_size, *settings),
    {
        let rect = field(screen_size);
        rect.x < rect.width && rect.y < rect.height && settings.max_amount >= 1
    }

    /// The point a click at the pointer of `input` goes to.
    pub open spec fn click_spec(input: Input) -> Point {
        Point {
            x: from_pixel_spec(input.pointer_x as int) as i32,
            y: from_pixel_spec(input.pointer_y as int) as i32,
        }
    }

    /// The round after `self` was reported: the standard layout for the
    /// next number of circles, a fresh timer, nothing lost.
    pub open spec fn restarted(&self, next: Self) -> bool {
        &&& next.field() == self.field()
        &&& next.max_amount() == self.max_amount()
        &&& next.amount() == next_amount_spec(self.amount(), self.max_amount())
        &&& next.circles().len() == next.amount()
        &&& laid_out(next.circles(), self.field())
        &&& self.timer().restarted(next.timer())
        &&& !next.lost()
    }

    /// A game whose first round has the circles of the settings.
    pub fn new(screen_size: (i32, i32), settings: &CirclesSettings, rng: StdRng) -> (game: Circles)
        requires
            Self::playable(screen_size, *settings),
        ensures
            game.inv(),
            game.field() == field_spec(screen_size),
            game.amount() == settings.amount,
            game.max_amount() == settings.max_amount,
            game.circles().len() == if settings.amount > 0 {
                settings.amount as int
            } else {
                0
            },
            laid_out(game.circles(), game.field()),
            game.timer().target() == duration_nanos(settings.time_limit),
            game.timer().elapsed() == 0,
            !game.lost(),
    {
        let rect = field(screen_size);
        let mut rng = rng;
        let circles = place_circles(settings.amount, rect, &mut rng);
        Circles {
            timer: Timer::new(settings.time_limit),
            amount: settings.amount,
            max_amount: settings.max_amount,
            circles,
            game_size: rect,
            lost: false,
            rng,
        }
    }

    /// One step: the time goes on, and the round is lost once it is up; a
    /// click takes away the circles it hits.
    pub fn circle_logic(&mut self, input: Input, delta: Duration)
        ensures
            old(self).steps_to(input, duration_nanos(delta), *final(self)),
    {
        self.timer.update(delta);
        if self.timer.is_finished() {
            self.lost = true;
        }
        if input.left_button {
            let click = Point { x: from_pixel(input.pointer_x), y: from_pixel(input.pointer_y) };
            self.circles = kept(&self.circles, click);
        }
    }

    /// The render commands for this state.
    pub fn draw_frame(&self) -> (cmds: Vec<DrawCommand>)
        ensures
            cmds@ == self.frame(),
    {
        let mut cmds: Vec<DrawCommand> = Vec::new();
        let mut i: usize = 0;
        while i < self.circles.len()
            invariant
                i <= self.circles.len(),
                cmds@.len() == i,
                forall|j: int| 0 <= j < i ==> cmds@[j] == circle_shape_spec(self.circles@[j]),
            decreases self.circles.len() - i,
        {
            let circle = self.circles[i];
            cmds.push(
                DrawCommand::Circle {
                    x: pixel(circle.center.x),
                    y: pixel(circle.center.y),
                    radius_tenths: tenths(circle.radius),
                    color: Color::Red,
                },
            );
            i += 1;
        }
        let ghost shapes = cmds@;
        push_countdown(&mut cmds, self.game_size, self.timer.time_left(), 0);
        assert(shapes =~= Seq::new(self.circles@.len(), |j: int| circle_shape_spec(self.circles@[j])));
        cmds
    }

    /// The circles that are left.
    pub fn remaining(&self) -> (circles: &Vec<Circle>)
        ensures
            circles@ == self.circles(),
    {
        &self.circles
    }

    /// The number of circles the round started with.
    pub fn round_amount(&self) -> (amount: i32)
        ensures
            amount == self.amount(),
    {
        self.amount
    }
}

impl Game for Circles {
    open spec fn inv(&self) -> bool {
        has_room(self.field()) && self.max_amount() >= 1
    }

    open spec fn name(&self) -> Seq<char> {
        "Circles"@
    }

    open spec fn outcome(&self) -> Option<bool> {
        if self.circles().len() < 1 || self.lost() {
            Some(self.lost())
        } else {
            None
        }
    }

    open spec fn steps_to(&self, input: Input, delta: nat, next: Self) -> bool {
        &&& next.field() == self.field()
        &&& next.amount() == self.amount()
        &&& next.max_amount() == self.max_amount()
        &&& self.timer().after(delta, next.timer())
        &&& next.lost() == (self.lost() || next.timer().elapsed() >= next.timer().target())
        &&& next.circles() == if input.left_button {
            kept_spec(self.circles(), Self::click_spec(input))
        } else {
            self.circles()
        }
    }

    open spec fn frame(&self) -> Seq<DrawCommand> {
        Seq::new(self.circles().len(), |j: int| circle_shape_spec(self.circles()[j]))
            + countdown_overlay_spec(self.field(), self.timer().seconds_left(), 0)
    }

    fn get_info(&self) -> (name: &str) {
        "Circles"
    }

    fn logic(&mut self, input: Input, delta: Duration) {
        self.circle_logic(input, delta);
    }

    fn draw(&self) -> (cmds: Vec<DrawCommand>) {
        self.draw_frame()
    }

    /// With the report of a round that is over, the next round is laid out.
    fn is_finished(&mut self) -> (result: Option<bool>)
        ensures
            result.is_some() ==> old(self).restarted(*final(self)),
    {
        if self.circles.len() < 1 || self.lost {
            let amount = next_amount(self.amount, self.max_amount);
            self.amount = amount;
            self.circles = place_circles(amount, self.game_size, &mut self.rng);
            self.timer.reset();
            let lost = self.lost;
            self.lost = false;
            Some(lost)
        } else {
            None
        }
    }
}

} // verus!
