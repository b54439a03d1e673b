//! Avoider: the player follows the pointer, enemies come in from the edges
//! of the screen towards where the pointer was, and the round is won by
//! staying untouched until the time is up.

use crate::game_handler::Game;
use crate::games::circles::{countdown_overlay_spec, push_countdown};
use crate::motion::{
    clamp, from_pixel, from_pixel_spec, halved, moved, moved_spec, pixel, pixel_spec, quotient,
    saturate, tenths, towards, towards_spec, within, within_spec, Point, Rect,
};
use crate::random::random_index;
use crate::render::{Color, DrawCommand, Input};
use crate::util::{duration_nanos, nanos_of, Timer};
use rand::rngs::StdRng;
use std::time::Duration;
use vstd::prelude::*;

verus! {

/// The radius of the player.
pub const PLAYER_SIZE: i32 = 20_000;

/// The radius of an enemy.
pub const ENEMY_SIZE: i32 = 30_000;

/// The width of the black rim drawn round the player.
pub const PLAYER_RIM: i32 = 3_400;

/// The width of the black rim drawn round an enemy.
pub const ENEMY_RIM: i32 = 4_000;

/// The length of a heading: a heading is a vector of this length.
pub const HEADING: i32 = 1000;

/// The speed of an enemy, in pixels per second.
pub const ENEMY_SPEED: i32 = 500;

/// How fast the player closes in on the pointer: this many times the
/// distance per second.
pub const FOLLOW_RATE: i32 = 15;

/// An enemy: where it is, and the way it goes.
#[derive(Clone, Copy, Debug, PartialEq, Eq, Structural)]
pub struct Enemy {
    pub pos: Point,
    pub heading: Point,
}

/// How long a round lasts, and how long it takes for the next enemy to come.
#[derive(Clone, Copy, Debug)]
pub struct AvoiderSettings {
    pub time_limit: Duration,
    pub spawn_interval: Duration,
}

/// The far end of the edge of `field` that starts at `start` and is
/// `length` long.
pub open spec fn edge_end_spec(start: int, length: int) -> int {
    clamp(start + length)
}

/// Every edge of the field has a point to come in at.
pub open spec fn has_edges(field: Rect) -> bool {
    &&& field.x < edge_end_spec(field.x as int, field.width as int)
    &&& field.y < edge_end_spec(field.y as int, field.height as int)
}

/// The enemy that comes in at `coord` on the side `side` of the field,
/// on its way to `target`. The sides are counted from the top clockwise,
/// and every number from three on stands for the left side.
pub open spec fn spawned_spec(field: Rect, side: int, coord: int, target: Point) -> Enemy {
    let pos = if side == 0 {
        Point { x: coord as i32, y: 0 }
    } else if side == 1 {
        Point { x: field.width, y: coord as i32 }
    } else if side == 2 {
        Point { x: coord as i32, y: field.height }
    } else {
        Point { x: 0, y: coord as i32 }
    };
    Enemy { pos, heading: towards_spec(pos, target, HEADING as int) }
}

/// The enemy that comes in at `coord` on the side `side` of the field.
pub fn spawned(field: Rect, side: usize, coord: i32, target: Point) -> (enemy: Enemy)
    ensures
        enemy == spawned_spec(field, side as int, coord as int, target),
{
    let pos = if side == 0 {
        Point { x: coord, y: 0 }
    } else if side == 1 {
        Point { x: field.width, y: coord }
    } else if side == 2 {
        Point { x: coord, y: field.height }
    } else {
        Point { x: 0, y: coord }
    };
    Enemy { pos, heading: towards(pos, target, 1000) }
}

/// `coord` is a point on the edge that an enemy on the side `side` comes
/// in at: along the field for the top and the bottom, across it for the
/// other two.
pub open spec fn on_edge(field: Rect, side: int, coord: int) -> bool {
    &&& 0 <= side < 4
    &&& if side % 2 == 0 {
        field.x <= coord < edge_end_spec(field.x as int, field.width as int)
    } else {
        field.y <= coord < edge_end_spec(field.y as int, field.height as int)
    }
}

/// Whether a point has left the field.
pub open spec fn outside_spec(pos: Point, field: Rect) -> bool {
    ||| pos.x > field.x + field.width
    ||| pos.x < field.x
    ||| pos.y > field.y + field.height
    ||| pos.y < field.y
}

/// An enemy after `nanos` nanoseconds on its way.
pub open spec fn advanced_spec(enemy: Enemy, nanos: nat) -> Enemy {
    Enemy {
        pos: Point {
            x: moved_spec(enemy.pos.x as int, clamp(enemy.heading.x * ENEMY_SPEED), nanos) as i32,
            y: moved_spec(enemy.pos.y as int, clamp(enemy.heading.y * ENEMY_SPEED), nanos) as i32,
        },
        heading: enemy.heading,
    }
}

/// The enemies after `nanos` nanoseconds: those that had left the field
/// are gone, the others went on.
pub open spec fn moved_enemies_spec(enemies: Seq<Enemy>, field: Rect, nanos: nat) -> Seq<Enemy>
    decreases enemies.len(),
{
    if enemies.len() == 0 {
        enemies
    } else if outside_spec(enemies.last().pos, field) {
        moved_enemies_spec(enemies.drop_last(), field, nanos)
    } else {
        moved_enemies_spec(enemies.drop_last(), field, nanos).push(
            advanced_spec(enemies.last(), nanos),
        )
    }
}

/// Whether one of the enemies is less than `reach` away from `player`.
pub open spec fn any_touch_spec(enemies: Seq<Enemy>, player: Point, reach: int) -> bool
    decreases enemies.len(),
{
    if enemies.len() == 0 {
        false
    } else {
        any_touch_spec(enemies.drop_last(), player, reach) || within_spec(
            enemies.last().pos,
            player,
            reach,
        )
    }
}

/// Where the player gets to in `nanos` nanoseconds on the way to the
/// pointer.
pub open spec fn followed_spec(player: Point, pointer: Point, nanos: nat) -> Point {
    Point {
        x: moved_spec(player.x as int, clamp((pointer.x - player.x) * FOLLOW_RATE), nanos) as i32,
        y: moved_spec(player.y as int, clamp((pointer.y - player.y) * FOLLOW_RATE), nanos) as i32,
    }
}

/// The two circles that show a body of `size` at `pos`: a black disc, and
/// on it a disc in `color` that leaves a rim of `rim`.
pub open spec fn body_shape_spec(pos: Point, size: int, rim: int, color: Color, inner: bool) -> DrawCommand {
    DrawCommand::Circle {
        x: pixel_spec(pos.x as int) as i32,
        y: pixel_spec(pos.y as int) as i32,
        radius_tenths: if inner {
            quotient(clamp(size - rim), 100) as i32
        } else {
            quotient(size, 100) as i32
        },
        color: if inner {
            color
        } else {
            Color::Black
        },
    }
}

/// Appends the two circles that show a body to `cmds`.
pub fn push_body(cmds: &mut Vec<DrawCommand>, pos: Point, size: i32, rim: i32, color: Color)
    ensures
        final(cmds)@ == old(cmds)@.push(
            body_shape_spec(pos, size as int, rim as int, color, false),
        ).push(body_shape_spec(pos, size as int, rim as int, color, true)),
{
    cmds.push(
        DrawCommand::Circle {
            x: pixel(pos.x),
            y: pixel(pos.y),
            radius_tenths: tenths(size),
            color: Color::Black,
        },
    );
    cmds.push(
        DrawCommand::Circle {
            x: pixel(pos.x),
            y: pixel(pos.y),
            radius_tenths: tenths(saturate(size as i128 - rim as i128)),
            color,
        },
    );
}

/// The game: the player, the enemies on their way, and the two timers.
pub struct Avoider {
    player_pos: Point,
    player_size: i32,
    enemies: Vec<Enemy>,
    enemy_size: i32,
    game_size: Rect,
    timer: Timer,
    spawn_timer: Timer,
    rng: StdRng,
    lost: bool,
}

impl Avoider {
    /// Where the player is.
    pub closed spec fn player(&self) -> Point {
        self.player_pos
    }

    /// The enemies, in the order in which they came.
    pub closed spec fn enemies(&self) -> Seq<Enemy> {
        self.enemies@
    }

    /// The field.
    pub closed spec fn field(&self) -> Rect {
        self.game_size
    }

    /// The timer of the round.
    pub closed spec fn timer(&self) -> Timer {
        self.timer
    }

    /// The timer that the next enemy waits for.
    pub closed spec fn spawn_timer(&self) -> Timer {
        self.spawn_timer
    }

    /// An enemy touched the player in this round.
    pub closed spec fn lost(&self) -> bool {
        self.lost
    }

    /// The radii of the player and of an enemy.
    pub closed spec fn sizes(&self) -> (int, int) {
        (self.player_size as int, self.enemy_size as int)
    }

    /// The field on a screen: all of it.
    pub open spec fn field_spec(screen_size: (i32, i32)) -> Rect {
        Rect {
            x: 0,
            y: 0,
            width: from_pixel_spec(screen_size.0 as int) as i32,
            height: from_pixel_spec(screen_size.1 as int) as i32,
        }
    }

    /// Whether a game can be played on this screen with these settings:
    /// enemies have edges to come in at, and a round takes time.
    pub open spec fn playable(screen_size: (i32, i32), settings: AvoiderSettings) -> bool {
        has_edges(Self::field_spec(screen_size)) && duration_nanos(settings.time_limit) > 0
    }

    /// Whether a game can be played on this screen with these settings.
    pub fn is_playable(screen_size: (i32, i32), settings: &AvoiderSettings) -> (ok: bool)
        ensures
            ok == Self::playable(screen_size, *settings),
    {
        screen_size.0 > 0 && screen_size.1 > 0 && nanos_of(settings.time_limit) > 0
    }

    /// The point the pointer of `input` is at.
    pub open spec fn pointer_spec(input: Input) -> Point {
        Point {
            x: from_pixel_spec(input.pointer_x as int) as i32,
            y: from_pixel_spec(input.pointer_y as int) as i32,
        }
    }

    /// What is left to say of a step once it is known which enemies were
    /// on the field when they moved.
    pub open spec fn moved_on(&self, present: Seq<Enemy>, player: Point, delta: nat, next: Self) -> bool {
        &&& next.enemies() == moved_enemies_spec(present, self.field(), delta)
        &&& next.lost() == (self.lost() || any_touch_spec(
            present,
            player,
            self.sizes().0 + self.sizes().1,
        ))
    }

    /// A game on a screen, with the player in the middle and no enemy yet.
    pub fn new(screen_size: (i32, i32), settings: &AvoiderSettings, rng: StdRng) -> (game: Avoider)
        requires
            Self::playable(screen_size, *settings),
        ensures
            game.inv(),
            game.field() == Self::field_spec(screen_size),
            game.player() == (Point {
                x: from_pixel_spec(quotient(screen_size.0 as int, 2)) as i32,
                y: from_pixel_spec(quotient(screen_size.1 as int, 2)) as i32,
            }),
            game.enemies().len() == 0,
            game.sizes() == (PLAYER_SIZE as int, ENEMY_SIZE as int),
            game.timer().target() == duration_nanos(settings.time_limit),
            game.timer().elapsed() == 0,
            game.spawn_timer().target() == duration_nanos(settings.spawn_interval),
            game.spawn_timer().elapsed() == 0,
            !game.lost(),
    {
        Avoider {
            player_pos: Point {
                x: from_pixel(halved(screen_size.0)),
                y: from_pixel(halved(screen_size.1)),
            },
            player_size: 20_000,
            enemies: Vec::new(),
            enemy_size: 30_000,
            game_size: Rect {
                x: 0,
                y: 0,
                width: from_pixel(screen_size.0),
                height: from_pixel(screen_size.1),
            },
            timer: Timer::new(settings.time_limit),
            spawn_timer: Timer::new(settings.spawn_interval),
            rng,
            lost: false,
        }
    }

    /// Lets an enemy come in at a random point of a random edge, on its way
    /// to `target`.
    pub fn place_enemy(&mut self, target: Point)
        requires
            old(self).inv(),
        ensures
            final(self).inv(),
            final(self).player() == old(self).player(),
            final(self).field() == old(self).field(),
            final(self).timer() == old(self).timer(),
            final(self).spawn_timer() == old(self).spawn_timer(),
            final(self).lost() == old(self).lost(),
            final(self).sizes() == old(self).sizes(),
            exists|side: int, coord: int|
                {
                    &&& on_edge(old(self).field(), side, coord)
                    &&& final(self).enemies() == old(self).enemies().push(
                        #[trigger] spawned_spec(old(self).field(), side, coord, target),
                    )
                },
    {
        let g = self.game_size;
        let side = random_index(&mut self.rng, 4);
        let (start, end): (i64, i64) = if side % 2 == 0 {
            (g.x as i64, saturate(g.x as i128 + g.width as i128) as i64)
        } else {
            (g.y as i64, saturate(g.y as i128 + g.height as i128) as i64)
        };
        let coord: i32 = (start + random_index(&mut self.rng, (end - start) as usize) as i64) as i32;
        let enemy = spawned(g, side, coord, target);
        self.enemies.push(enemy);
        assert(on_edge(g, side as int, coord as int));
        assert(self.enemies() == old(self).enemies().push(
            spawned_spec(old(self).field(), side as int, coord as int, target),
        ));
    }

    /// Moves the enemies for `nanos` nanoseconds, and finds out whether one
    /// of them had reached the player.
    pub fn move_enemies(&mut self, nanos: u128)
        ensures
            final(self).player() == old(self).player(),
            final(self).field() == old(self).field(),
            final(self).timer() == old(self).timer(),
            final(self).spawn_timer() == old(self).spawn_timer(),
            final(self).sizes() == old(self).sizes(),
            old(self).moved_on(old(self).enemies(), old(self).player(), nanos as nat, *final(self)),
    {
        let g = self.game_size;
        let reach: i64 = self.player_size as i64 + self.enemy_size as i64;
        let mut updated: Vec<Enemy> = Vec::new();
        let mut touched = false;
        let mut i: usize = 0;
        while i < self.enemies.len()
            invariant
                i <= self.enemies.len(),
                *self == *old(self),
                g == self.game_size,
                reach == self.player_size + self.enemy_size,
                updated@ == moved_enemies_spec(self.enemies@.subrange(0, i as int), g, nanos as nat),
                touched == any_touch_spec(
                    self.enemies@.subrange(0, i as int),
                    self.player_pos,
                    reach as int,
                ),
            decreases self.enemies.len() - i,
        {
            let enemy = self.enemies[i];
            assert(self.enemies@.subrange(0, i + 1).drop_last() =~= self.enemies@.subrange(
                0,
                i as int,
            ));
            if within(enemy.pos, self.player_pos, reach) {
                touched = true;
            }
            let outside = enemy.pos.x as i64 > g.x as i64 + g.width as i64 || enemy.pos.x < g.x
                || enemy.pos.y as i64 > g.y as i64 + g.height as i64 || enemy.pos.y < g.y;
            if !outside {
                updated.push(
                    Enemy {
                        pos: Point {
                            x: moved(
                                enemy.pos.x,
                                saturate(enemy.heading.x as i128 * 500),
                                nanos,
                            ),
                            y: moved(
                                enemy.pos.y,
                                saturate(enemy.heading.y as i128 * 500),
                                nanos,
                            ),
                        },
                        heading: enemy.heading,
                    },
                );
            }
            i += 1;
        }
        assert(self.enemies@.subrange(0, self.enemies@.len() as int) =~= self.enemies@);
        if touched {
            self.lost = true;
        }
        self.enemies = updated;
    }

    /// One step: the player follows the pointer, the timers go on, an
    /// enemy comes in if one is due, and the enemies move.
    pub fn avoider_logic(&mut self, input: Input, delta: Duration)
        requires
            old(self).inv(),
        ensures
            final(self).inv(),
            old(self).steps_to(input, duration_nanos(delta), *final(self)),
    {
        let pointer = Point { x: from_pixel(input.pointer_x), y: from_pixel(input.pointer_y) };
        let nanos = nanos_of(delta);
        self.player_pos = Point {
            x: moved(
                self.player_pos.x,
                saturate((pointer.x as i64 - self.player_pos.x as i64) as i128 * 15),
                nanos,
            ),
            y: moved(
                self.player_pos.y,
                saturate((pointer.y as i64 - self.player_pos.y as i64) as i128 * 15),
                nanos,
            ),
        };
        self.timer.update(delta);
        self.spawn_timer.update(delta);
        let ghost player = self.player_pos;
        proof {
            old(self).spawn_timer.lemma_in_range();
        }
        if self.spawn_timer.is_finished() {
            self.spawn_timer.reset();
            let ghost before = self.enemies@;
            self.place_enemy(pointer);
            let ghost (side, coord) = choose|side: int, coord: int|
                {
                    &&& on_edge(self.field(), side, coord)
                    &&& self.enemies() == before.push(
                        #[trigger] spawned_spec(self.field(), side, coord, pointer),
                    )
                };
            let ghost present = self.enemies@;
            self.move_enemies(nanos);
            assert(old(self).moved_on(
                old(self).enemies().push(spawned_spec(old(self).field(), side, coord, pointer)),
                player,
                nanos as nat,
                *self,
            ));
        } else {
            self.move_enemies(nanos);
        }
    }

    /// The render commands for this state.
    pub fn draw_frame(&self) -> (cmds: Vec<DrawCommand>)
        ensures
            cmds@ == self.frame(),
    {
        let mut cmds: Vec<DrawCommand> = Vec::new();
        let mut i: usize = 0;
        while i < self.enemies.len()
            invariant
                i <= self.enemies.len(),
                cmds@.len() == 2 * i,
                forall|j: int|
                    0 <= j < 2 * i ==> cmds@[j] == body_shape_spec(
                        self.enemies@[j / 2].pos,
                        self.enemy_size as int,
                        ENEMY_RIM as int,
                        Color::Red,
                        j % 2 == 1,
                    ),
            decreases self.enemies.len() - i,
        {
            push_body(&mut cmds, self.enemies[i].pos, self.enemy_size, 4_000, Color::Red);
            i += 1;
        }
        let ghost shapes = cmds@;
        push_body(&mut cmds, self.player_pos, self.player_size, 3_400, Color::GreenYellow);
        push_countdown(&mut cmds, self.game_size, self.timer.time_left(), 10);
        assert(shapes =~= self.enemy_shapes());
        cmds
    }

    /// The circles that show the enemies, two for each.
    pub open spec fn enemy_shapes(&self) -> Seq<DrawCommand> {
        Seq::new(
            2 * self.enemies().len(),
            |j: int|
                body_shape_spec(
                    self.enemies()[j / 2].pos,
                    self.sizes().1,
                    ENEMY_RIM as int,
                    Color::Red,
                    j % 2 == 1,
                ),
        )
    }

    /// The enemies, in the order in which they came.
    pub fn enemy_list(&self) -> (enemies: &Vec<Enemy>)
        ensures
            enemies@ == self.enemies(),
    {
        &self.enemies
    }

    /// Where the player is.
    pub fn player_pos(&self) -> (pos: Point)
        ensures
            pos == self.player(),
    {
        self.player_pos
    }
}

impl Game for Avoider {
    open spec fn inv(&self) -> bool {
        has_edges(self.field()) && self.timer().target() > 0
    }

    open spec fn name(&self) -> Seq<char> {
        "Avoider"@
    }

    open spec fn outcome(&self) -> Option<bool> {
        if self.timer().elapsed() >= self.timer().target() {
            Some(false)
        } else if self.lost() {
            Some(true)
        } else {
            None
        }
    }

    open spec fn steps_to(&self, input: Input, delta: nat, next: Self) -> bool {
        let pointer = Self::pointer_spec(input);
        let player = followed_spec(self.player(), pointer, delta);
        &&& next.field() == self.field()
        &&& next.sizes() == self.sizes()
        &&& next.player() == player
        &&& self.timer().after(delta, next.timer())
        &&& if self.spawn_timer().elapsed() + delta >= self.spawn_timer().target() {
            &&& self.spawn_timer().target() == next.spawn_timer().target()
            &&& next.spawn_timer().elapsed() == 0
            &&& exists|side: int, coord: int|
                {
                    &&& on_edge(self.field(), side, coord)
                    &&& self.moved_on(
                        self.enemies().push(
                            #[trigger] spawned_spec(self.field(), side, coord, pointer),
                        ),
                        player,
                        delta,
                        next,
                    )
                }
        } else {
            &&& self.spawn_timer().after(delta, next.spawn_timer())
            &&& self.moved_on(self.enemies(), player, delta, next)
        }
    }

    open spec fn frame(&self) -> Seq<DrawCommand> {
        self.enemy_shapes().push(
            body_shape_spec(
                self.player(),
                self.sizes().0,
                PLAYER_RIM as int,
                Color::GreenYellow,
                false,
            ),
        ).push(
            body_shape_spec(
                self.player(),
                self.sizes().0,
                PLAYER_RIM as int,
                Color::GreenYellow,
                true,
            ),
        ) + countdown_overlay_spec(self.field(), self.timer().seconds_left(), 10)
    }

    fn get_info(&self) -> (name: &str) {
        "Avoider"
    }

    fn logic(&mut self, input: Input, delta: Duration) {
        self.avoider_logic(input, delta);
    }

    fn draw(&self) -> (cmds: Vec<DrawCommand>) {
        self.draw_frame()
    }

    /// With the report of a round that is over, the next round starts:
    /// the time starts again, the enemies are gone, and nothing is lost.
    /// The player stays where it is.
    fn is_finished(&mut self) -> (result: Option<bool>)
        ensures
            final(self).field() == old(self).field(),
            final(self).sizes() == old(self).sizes(),
            final(self).player() == old(self).player(),
            final(self).spawn_timer() == old(self).spawn_timer(),
            result.is_some() ==> {
                &&& old(self).timer().restarted(final(self).timer())
                &&& final(self).enemies().len() == 0
                &&& !final(self).lost()
            },
    {
        if self.timer.is_finished() {
            self.timer.reset();
            self.enemies.clear();
            self.lost = false;
            Some(false)
        } else if self.lost {
            self.lost = false;
            self.timer.reset();
            self.enemies.clear();
            Some(true)
        } else {
            None
        }
    }
}

} // verus!
