use idle_arcade::motion::{
    bounced, disc_meets_rect, distance_squared, from_pixel, halved, middle, moved, pixel, root,
    saturate, tenths, towards, travel, within, Point, Rect,
};

#[test]
fn travel_is_speed_times_time() {
    assert_eq!(travel(300_000, 16_000_000), 4_800);
    assert_eq!(travel(300_000, 1_000_000_000), 300_000);
    assert_eq!(travel(-300_000, 16_000_000), -4_800);
    assert_eq!(travel(0, 5_000_000_000), 0);
    assert_eq!(travel(1, 999_999_999), 0);
    assert_eq!(travel(-1, 999_999_999), 0);
    assert_eq!(travel(7, 2_500_000_000), 17);
    assert_eq!(travel(-7, 2_500_000_000), -17);
}

#[test]
fn travel_stops_at_the_ends_of_the_range() {
    assert_eq!(travel(1, u128::MAX), i32::MAX);
    assert_eq!(travel(-1, u128::MAX), i32::MIN);
    assert_eq!(travel(i32::MAX, 2_000_000_000), i32::MAX);
    assert_eq!(travel(i32::MIN, 2_000_000_000), i32::MIN);
    assert_eq!(travel(i32::MIN, 1_000_000_000), i32::MIN);
}

#[test]
fn moved_adds_the_way_and_saturates() {
    assert_eq!(moved(1_000, 300_000, 16_000_000), 5_800);
    assert_eq!(moved(i32::MAX - 10, 300_000, 1_000_000_000), i32::MAX);
    assert_eq!(moved(i32::MIN + 10, -300_000, 1_000_000_000), i32::MIN);
}

#[test]
fn saturate_holds_values_in_range() {
    assert_eq!(saturate(12), 12);
    assert_eq!(saturate(i128::MAX), i32::MAX);
    assert_eq!(saturate(i128::MIN), i32::MIN);
    assert_eq!(saturate(2_147_483_648), i32::MAX);
    assert_eq!(saturate(-2_147_483_649), i32::MIN);
}

#[test]
fn pixels_drop_the_fraction() {
    assert_eq!(pixel(1_999), 1);
    assert_eq!(pixel(-1_999), -1);
    assert_eq!(pixel(-999), 0);
    assert_eq!(pixel(i32::MIN), -2_147_483);
    assert_eq!(from_pixel(12), 12_000);
    assert_eq!(from_pixel(-3), -3_000);
    assert_eq!(from_pixel(3_000_000), i32::MAX);
}

#[test]
fn halves_middles_and_tenths_drop_the_fraction() {
    assert_eq!(halved(7), 3);
    assert_eq!(halved(-7), -3);
    assert_eq!(halved(i32::MIN), -1_073_741_824);
    assert_eq!(middle(-10, 5), -8);
    assert_eq!(middle(0, -5), -2);
    assert_eq!(middle(i32::MAX, 10), i32::MAX);
    assert_eq!(tenths(12_000), 120);
    assert_eq!(tenths(-250), -2);
}

#[test]
fn bounce_turns_round_at_the_walls() {
    assert_eq!(bounced(90, 5, 10, 90), -5);
    assert_eq!(bounced(10, -5, 10, 90), 5);
    assert_eq!(bounced(50, 5, 10, 90), 5);
    assert_eq!(bounced(95, -5, 10, 90), 5);
    assert_eq!(bounced(0, i32::MIN, 10, 90), i32::MAX);
}

#[test]
fn root_is_rounded_down() {
    assert_eq!(root(0), 0);
    assert_eq!(root(1), 1);
    assert_eq!(root(3), 1);
    assert_eq!(root(4), 2);
    assert_eq!(root(24), 4);
    assert_eq!(root(25), 5);
    assert_eq!(root(1_000_000_000_000), 1_000_000);
    assert_eq!(root(u128::MAX), u64::MAX);
}

#[test]
fn distances_compare_by_their_squares() {
    let a = Point { x: 0, y: 0 };
    let b = Point { x: 3_000, y: 4_000 };
    assert_eq!(distance_squared(a, b), 25_000_000);
    assert!(within(a, b, 5_001));
    assert!(!within(a, b, 5_000));
    assert!(!within(a, a, 0));
    let far = distance_squared(Point { x: i32::MIN, y: i32::MIN }, Point { x: i32::MAX, y: i32::MAX });
    assert_eq!(far, 2 * (u32::MAX as u128) * (u32::MAX as u128));
}

#[test]
fn towards_has_the_length_asked_for() {
    let from = Point { x: 1_000, y: 1_000 };
    assert_eq!(towards(from, Point { x: 4_000, y: 5_000 }, 1_000), Point { x: 600, y: 800 });
    assert_eq!(towards(from, Point { x: -2_000, y: -3_000 }, 100_000), Point { x: -60_000, y: -80_000 });
    assert_eq!(towards(from, from, 1_000), Point { x: 0, y: 0 });
    assert_eq!(towards(from, Point { x: 1_000, y: 9_000 }, 1_000), Point { x: 0, y: 1_000 });
}

#[test]
fn disc_meets_rect_by_the_nearest_point() {
    let rect = Rect { x: 0, y: 0, width: 100, height: 50 };
    assert!(disc_meets_rect(Point { x: 50, y: 25 }, 1, rect));
    assert!(disc_meets_rect(Point { x: 110, y: 25 }, 10, rect));
    assert!(!disc_meets_rect(Point { x: 111, y: 25 }, 10, rect));
    assert!(disc_meets_rect(Point { x: 103, y: 54 }, 5, rect));
    assert!(!disc_meets_rect(Point { x: 104, y: 54 }, 5, rect));
    assert!(disc_meets_rect(Point { x: -3, y: -4 }, 5, rect));
}
