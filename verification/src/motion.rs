//! Fixed-point motion on the screen. A coordinate is a whole number of
//! thousandths of a pixel, a speed is thousandths of a pixel per second, and
//! both are held within the range of `i32`: a value that would leave the
//! range stays at its end.

use vstd::prelude::*;

verus! {

/// A point on the screen, or a velocity: two coordinates in thousandths.
#[derive(Clone, Copy, Debug, PartialEq, Eq, Structural)]
pub struct Point {
    pub x: i32,
    pub y: i32,
}

/// A rectangle on the screen, by its top left corner and its size, in
/// thousandths.
#[derive(Clone, Copy, Debug, PartialEq, Eq, Structural)]
pub struct Rect {
    pub x: i32,
    pub y: i32,
    pub width: i32,
    pub height: i32,
}

/// `v`, held at the nearer end of the range of `i32` where it lies outside.
pub open spec fn clamp(v: int) -> int {
    if v < i32::MIN {
        i32::MIN as int
    } else if v > i32::MAX {
        i32::MAX as int
    } else {
        v
    }
}

/// `a / b` with the fraction dropped, for a positive `b`.
pub open spec fn quotient(a: int, b: int) -> int {
    if a >= 0 {
        a / b
    } else {
        -((-a) / b)
    }
}

/// The way made at `speed` in `nanos` nanoseconds.
pub open spec fn travel_spec(speed: int, nanos: nat) -> int {
    clamp(quotient(speed * nanos, 1_000_000_000))
}

/// The coordinate reached from `pos` at `speed` after `nanos` nanoseconds.
pub open spec fn moved_spec(pos: int, speed: int, nanos: nat) -> int {
    clamp(pos + travel_spec(speed, nanos))
}

/// The pixel a coordinate lies in, counted from the origin.
pub open spec fn pixel_spec(milli: int) -> int {
    quotient(milli, 1000)
}

/// The coordinate of the corner of a pixel.
pub open spec fn from_pixel_spec(pixel: int) -> int {
    clamp(pixel * 1000)
}

/// `v`, held at the nearer end of the range of `i32` where it lies outside.
pub fn saturate(v: i128) -> (r: i32)
    ensures
        r == clamp(v as int),
{
    if v < -2_147_483_648 {
        -2_147_483_648
    } else if v > 2_147_483_647 {
        2_147_483_647
    } else {
        v as i32
    }
}

proof fn lemma_split_product(m: nat, secs: nat, sub: nat)
    requires
        sub < 1_000_000_000,
    ensures
        (m * (secs * 1_000_000_000 + sub)) / 1_000_000_000 == m * secs + (m * sub)
            / 1_000_000_000,
{
    let k = m * secs;
    let x = m * sub;
    assert(m * (secs * 1_000_000_000 + sub) == k * 1_000_000_000 + x) by (nonlinear_arith)
        requires
            k == m * secs,
            x == m * sub,
    ;
    assert((k * 1_000_000_000 + x) / 1_000_000_000 == k + x / 1_000_000_000);
}

/// The way made at `speed` in `nanos` nanoseconds.
pub fn travel(speed: i32, nanos: u128) -> (way: i32)
    ensures
        way == travel_spec(speed as int, nanos as nat),
{
    let secs: u128 = nanos / 1_000_000_000;
    let sub: u128 = nanos % 1_000_000_000;
    let magnitude: u128 = if speed >= 0 {
        speed as u128
    } else {
        (-(speed as i64)) as u128
    };
    proof {
        lemma_split_product(magnitude as nat, secs as nat, sub as nat);
        assert(magnitude * nanos == magnitude * (secs * 1_000_000_000 + sub));
        if speed >= 0 {
            assert(speed * nanos == magnitude * nanos);
        } else {
            assert(-(speed * nanos) == magnitude * nanos) by (nonlinear_arith)
                requires
                    magnitude == -speed,
            ;
        }
    }
    if magnitude == 0 {
        assert(speed * nanos == 0) by (nonlinear_arith)
            requires
                speed == 0,
        ;
        return 0;
    }
    if secs > 4_294_967_296 {
        assert(magnitude * secs >= 4_294_967_296) by (nonlinear_arith)
            requires
                magnitude >= 1,
                secs > 4_294_967_296,
        ;
        assert(magnitude * sub >= 0) by (nonlinear_arith)
            requires
                magnitude >= 1,
                sub >= 0,
        ;
        return if speed >= 0 {
            2_147_483_647
        } else {
            -2_147_483_648
        };
    }
    assert(magnitude * secs <= 2_147_483_648 * 4_294_967_296) by (nonlinear_arith)
        requires
            magnitude <= 2_147_483_648,
            secs <= 4_294_967_296,
    ;
    assert(magnitude * sub <= 2_147_483_648 * 1_000_000_000) by (nonlinear_arith)
        requires
            magnitude <= 2_147_483_648,
            sub < 1_000_000_000,
    ;
    let whole: u128 = magnitude * secs + (magnitude * sub) / 1_000_000_000;
    if speed >= 0 {
        saturate(whole as i128)
    } else {
        saturate(-(whole as i128))
    }
}

/// The coordinate reached from `pos` at `speed` after `nanos` nanoseconds.
pub fn moved(pos: i32, speed: i32, nanos: u128) -> (next: i32)
    ensures
        next == moved_spec(pos as int, speed as int, nanos as nat),
{
    saturate(pos as i128 + travel(speed, nanos) as i128)
}

/// The pixel a coordinate lies in, counted from the origin.
pub fn pixel(milli: i32) -> (px: i32)
    ensures
        px == pixel_spec(milli as int),
{
    if milli >= 0 {
        milli / 1000
    } else {
        let m: i64 = -(milli as i64);
        (-(m / 1000)) as i32
    }
}

/// The coordinate of the corner of a pixel.
pub fn from_pixel(px: i32) -> (milli: i32)
    ensures
        milli == from_pixel_spec(px as int),
{
    saturate(px as i128 * 1000)
}

/// Half of `v`, with the fraction dropped.
pub fn halved(v: i32) -> (half: i32)
    ensures
        half == quotient(v as int, 2),
{
    if v >= 0 {
        v / 2
    } else {
        (-((-(v as i64)) / 2)) as i32
    }
}

/// The middle of a stretch that starts at `start` and is `length` long.
pub open spec fn middle_spec(start: int, length: int) -> int {
    clamp(start + quotient(length, 2))
}

/// The middle of a stretch that starts at `start` and is `length` long.
pub fn middle(start: i32, length: i32) -> (mid: i32)
    ensures
        mid == middle_spec(start as int, length as int),
{
    let half: i64 = if length >= 0 {
        (length / 2) as i64
    } else {
        -((-(length as i64)) / 2)
    };
    saturate((start as i64 + half) as i128)
}

/// A length in tenths of a pixel, with the fraction dropped.
pub fn tenths(milli: i32) -> (r: i32)
    ensures
        r == quotient(milli as int, 100),
{
    if milli >= 0 {
        milli / 100
    } else {
        (-((-(milli as i64)) / 100)) as i32
    }
}

/// The speed of a body at `pos` after it met the walls at `low` and `high`:
/// turned round where the body is at or beyond one of them, else unchanged.
/// The turn keeps the magnitude.
pub open spec fn bounced_spec(pos: int, speed: int, low: int, high: int) -> int {
    if pos >= high || pos <= low {
        clamp(-speed)
    } else {
        speed
    }
}

/// The speed of a body at `pos` after it met the walls at `low` and `high`.
pub fn bounced(pos: i32, speed: i32, low: i64, high: i64) -> (next: i32)
    ensures
        next == bounced_spec(pos as int, speed as int, low as int, high as int),
{
    if pos as i64 >= high || pos as i64 <= low {
        saturate(-(speed as i128))
    } else {
        speed
    }
}

/// `v`, held between `low` and `high`.
pub open spec fn nearest_spec(v: int, low: int, high: int) -> int {
    if v < low {
        low
    } else if v > high {
        high
    } else {
        v
    }
}

/// Whether the disc around `center` meets `rect`: the point of the
/// rectangle that is nearest to the centre lies within the radius.
pub open spec fn disc_meets_rect_spec(center: Point, radius: int, rect: Rect) -> bool {
    let nx = nearest_spec(center.x as int, rect.x as int, rect.x + rect.width);
    let ny = nearest_spec(center.y as int, rect.y as int, rect.y + rect.height);
    (center.x - nx) * (center.x - nx) + (center.y - ny) * (center.y - ny) <= radius * radius
}

fn nearest(v: i64, low: i64, high: i64) -> (r: i64)
    ensures
        r == nearest_spec(v as int, low as int, high as int),
{
    if v < low {
        low
    } else if v > high {
        high
    } else {
        v
    }
}

/// Whether the disc around `center` meets `rect`.
pub fn disc_meets_rect(center: Point, radius: i32, rect: Rect) -> (meets: bool)
    ensures
        meets == disc_meets_rect_spec(center, radius as int, rect),
{
    let nx = nearest(center.x as i64, rect.x as i64, rect.x as i64 + rect.width as i64);
    let ny = nearest(center.y as i64, rect.y as i64, rect.y as i64 + rect.height as i64);
    let dx: i128 = (center.x as i64 - nx) as i128;
    let dy: i128 = (center.y as i64 - ny) as i128;
    let r: i128 = radius as i128;
    assert(dx * dx <= 0x1_0000_0000_0000_0000_0000 && dx * dx >= 0) by (nonlinear_arith)
        requires
            -0x1_0000_0000_00 <= dx <= 0x1_0000_0000_00,
    ;
    assert(dy * dy <= 0x1_0000_0000_0000_0000_0000 && dy * dy >= 0) by (nonlinear_arith)
        requires
            -0x1_0000_0000_00 <= dy <= 0x1_0000_0000_00,
    ;
    assert(r * r <= 0x1_0000_0000_0000_0000_0000 && r * r >= 0) by (nonlinear_arith)
        requires
            -0x1_0000_0000_00 <= r <= 0x1_0000_0000_00,
    ;
    dx * dx + dy * dy <= r * r
}

/// `r` is the square root of `n`, rounded down.
pub open spec fn is_root(n: nat, r: nat) -> bool {
    r * r <= n && n < (r + 1) * (r + 1)
}

/// The square root of `n`, rounded down.
pub open spec fn root_spec(n: nat) -> nat {
    choose|r: nat| is_root(n, r)
}

/// A number has one rounded square root.
pub proof fn lemma_root_unique(n: nat, a: nat, b: nat)
    requires
        is_root(n, a),
        is_root(n, b),
    ensures
        a == b,
{
    if a < b {
        assert((a + 1) * (a + 1) <= b * b) by (nonlinear_arith)
            requires
                a + 1 <= b,
        ;
    }
    if b < a {
        assert((b + 1) * (b + 1) <= a * a) by (nonlinear_arith)
            requires
                b + 1 <= a,
        ;
    }
}

/// The square root of `n`, rounded down.
pub fn root(n: u128) -> (r: u64)
    ensures
        r == root_spec(n as nat),
        is_root(n as nat, r as nat),
{
    let mut lo: u128 = 0;
    let mut hi: u128 = 0x1_0000_0000_0000_0000;
    assert(hi * hi > n) by (nonlinear_arith)
        requires
            hi == 0x1_0000_0000_0000_0000,
            n <= 0xffff_ffff_ffff_ffff_ffff_ffff_ffff_ffff,
    ;
    while hi - lo > 1
        invariant
            lo < hi <= 0x1_0000_0000_0000_0000,
            lo * lo <= n,
            n < hi * hi,
        decreases hi - lo,
    {
        let mid: u128 = lo + (hi - lo) / 2;
        assert(mid * mid <= 0xffff_ffff_ffff_ffff * 0xffff_ffff_ffff_ffff) by (nonlinear_arith)
            requires
                mid <= 0xffff_ffff_ffff_ffff,
        ;
        if mid * mid <= n {
            lo = mid;
        } else {
            hi = mid;
        }
    }
    proof {
        assert(is_root(n as nat, lo as nat));
        let chosen = root_spec(n as nat);
        assert(is_root(n as nat, chosen));
        lemma_root_unique(n as nat, lo as nat, chosen);
    }
    lo as u64
}

/// The square of the distance between two points.
pub open spec fn distance_squared_spec(a: Point, b: Point) -> nat {
    ((a.x - b.x) * (a.x - b.x) + (a.y - b.y) * (a.y - b.y)) as nat
}

/// The square of the distance between two points.
pub fn distance_squared(a: Point, b: Point) -> (d: u128)
    ensures
        d == distance_squared_spec(a, b),
        d <= 0x2_0000_0000_0000_0000,
{
    let dx: i128 = (a.x as i64 - b.x as i64) as i128;
    let dy: i128 = (a.y as i64 - b.y as i64) as i128;
    assert(0 <= dx * dx <= 0x1_0000_0000_0000_0000) by (nonlinear_arith)
        requires
            -0x1_0000_0000 <= dx <= 0x1_0000_0000,
    ;
    assert(0 <= dy * dy <= 0x1_0000_0000_0000_0000) by (nonlinear_arith)
        requires
            -0x1_0000_0000 <= dy <= 0x1_0000_0000,
    ;
    (dx * dx + dy * dy) as u128
}

/// Whether `a` and `b` are less than `reach` apart.
pub open spec fn within_spec(a: Point, b: Point, reach: int) -> bool {
    reach > 0 && distance_squared_spec(a, b) < reach * reach
}

/// Whether `a` and `b` are less than `reach` apart.
pub fn within(a: Point, b: Point, reach: i64) -> (near: bool)
    ensures
        near == within_spec(a, b, reach as int),
{
    if reach <= 0 {
        return false;
    }
    let r: u128 = reach as u128;
    assert(r * r <= 0x8000_0000_0000_0000 * 0x8000_0000_0000_0000) by (nonlinear_arith)
        requires
            r <= 0x8000_0000_0000_0000,
    ;
    distance_squared(a, b) < r * r
}

/// One coordinate of the vector of length `reach` that points the way
/// `(dx, dy)` does, where `part` is `dx` or `dy`. The vector from a point
/// to itself points nowhere and has no length.
pub open spec fn scaled_spec(part: int, dx: int, dy: int, reach: int) -> int {
    let length = root_spec((dx * dx + dy * dy) as nat);
    if length == 0 {
        0
    } else {
        clamp(quotient(part * reach, length as int))
    }
}

/// The vector of length `reach` that points from `from` to `to`.
pub open spec fn towards_spec(from: Point, to: Point, reach: int) -> Point {
    let dx = to.x - from.x;
    let dy = to.y - from.y;
    Point { x: scaled_spec(dx, dx, dy, reach) as i32, y: scaled_spec(dy, dx, dy, reach) as i32 }
}

fn scaled(part: i64, length: u64, reach: i32) -> (r: i32)
    requires
        -0x1_0000_0000 <= part <= 0x1_0000_0000,
        length > 0,
    ensures
        r == clamp(quotient(part * reach, length as int)),
{
    assert(-0x1_0000_0000 * 0x8000_0000 <= part * reach <= 0x1_0000_0000 * 0x8000_0000)
        by (nonlinear_arith)
        requires
            -0x1_0000_0000 <= part <= 0x1_0000_0000,
            -0x8000_0000 <= reach <= 0x8000_0000,
    ;
    let product: i128 = part as i128 * reach as i128;
    let q: i128 = if product >= 0 {
        product / length as i128
    } else {
        -((-product) / length as i128)
    };
    saturate(q)
}

/// The vector of length `reach` that points from `from` to `to`.
pub fn towards(from: Point, to: Point, reach: i32) -> (v: Point)
    ensures
        v == towards_spec(from, to, reach as int),
{
    let dx: i64 = to.x as i64 - from.x as i64;
    let dy: i64 = to.y as i64 - from.y as i64;
    let length = root(distance_squared(to, from));
    if length == 0 {
        Point { x: 0, y: 0 }
    } else {
        Point { x: scaled(dx, length, reach), y: scaled(dy, length, reach) }
    }
}

} // verus!
