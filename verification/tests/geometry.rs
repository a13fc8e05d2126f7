use pinnacle::geometry::{saturating_add, saturating_sub, Point, Rect, Size};
use pinnacle::serial::{Serial, SerialCounter};

fn rect(x: i32, y: i32, w: i32, h: i32) -> Rect {
    Rect { loc: Point { x, y }, size: Size { w, h } }
}

#[test]
fn addition_saturates_at_both_ends() {
    assert_eq!(saturating_add(1, 2), 3);
    assert_eq!(saturating_add(i32::MAX, 1), i32::MAX);
    assert_eq!(saturating_add(i32::MIN, -1), i32::MIN);
    assert_eq!(saturating_add(i32::MAX, i32::MIN), -1);
}

#[test]
fn subtraction_saturates_at_both_ends() {
    assert_eq!(saturating_sub(5, 7), -2);
    assert_eq!(saturating_sub(i32::MIN, 1), i32::MIN);
    assert_eq!(saturating_sub(i32::MAX, -1), i32::MAX);
    assert_eq!(saturating_sub(0, i32::MIN), i32::MAX);
}

#[test]
fn points_add_and_subtract_by_coordinate() {
    let p = Point::new(10, -4);
    assert_eq!(p.plus(Point::new(-3, 9)), Point::new(7, 5));
    assert_eq!(p.minus(Point::new(-3, 9)), Point::new(13, -13));
    assert_eq!(Point::new(i32::MAX, i32::MIN).plus(Point::new(1, -1)), Point::new(i32::MAX, i32::MIN));
    assert_eq!(Point::new(i32::MIN, i32::MAX).minus(Point::new(1, -1)), Point::new(i32::MIN, i32::MAX));
}

#[test]
fn constructors_keep_their_arguments() {
    assert_eq!(Size::new(3, 4), Size { w: 3, h: 4 });
    assert_eq!(Rect::from_loc_and_size(Point::new(1, 2), Size::new(3, 4)), rect(1, 2, 3, 4));
}

#[test]
fn overlapping_is_exclusive_of_borders() {
    let a = rect(0, 0, 10, 10);
    assert!(a.overlaps(rect(5, 5, 10, 10)));
    assert!(a.overlaps(rect(9, 9, 1, 1)));
    assert!(!a.overlaps(rect(10, 0, 10, 10)));
    assert!(!a.overlaps(rect(0, 10, 10, 10)));
    assert!(!a.overlaps(rect(-10, 0, 10, 10)));
    assert!(!a.overlaps(rect(20, 20, 5, 5)));
}

#[test]
fn touching_counts_where_it_is_asked_for() {
    let a = rect(0, 0, 10, 10);
    assert!(a.overlaps_or_touches(rect(10, 0, 10, 10)));
    assert!(a.overlaps_or_touches(rect(10, 10, 1, 1)));
    assert!(a.overlaps_or_touches(rect(-5, -5, 5, 5)));
    assert!(!a.overlaps_or_touches(rect(11, 0, 10, 10)));
    assert!(!a.overlaps_or_touches(rect(0, -6, 10, 5)));
}

#[test]
fn overlap_near_the_end_of_the_range_does_not_wrap() {
    let far = rect(i32::MAX - 5, 0, 100, 10);
    assert!(far.overlaps(rect(i32::MAX - 1, 0, 1, 1)));
    assert!(!far.overlaps(rect(0, 0, 10, 10)));
}

#[test]
fn containment_includes_top_left_and_excludes_bottom_right() {
    let a = rect(0, 0, 100, 100);
    assert!(a.contains(Point::new(0, 0)));
    assert!(a.contains(Point::new(99, 99)));
    assert!(!a.contains(Point::new(100, 50)));
    assert!(!a.contains(Point::new(50, 100)));
    assert!(!a.contains(Point::new(-1, 50)));
}

#[test]
fn serials_compare_as_numbers_when_close() {
    assert!(Serial(5).is_no_older_than(Serial(5)));
    assert!(Serial(6).is_no_older_than(Serial(5)));
    assert!(!Serial(4).is_no_older_than(Serial(5)));
}

#[test]
fn serials_compare_the_other_way_round_after_a_wrap() {
    // 3 was handed out after the counter wrapped; u32::MAX - 3 before.
    assert!(Serial(3).is_no_older_than(Serial(u32::MAX - 3)));
    assert!(!Serial(u32::MAX - 3).is_no_older_than(Serial(3)));
}

#[test]
fn serials_half_the_range_apart() {
    let half = u32::MAX / 2;
    // One less than half the range apart: compared as they stand.
    assert!(Serial(half - 1).is_no_older_than(Serial(0)));
    assert!(!Serial(0).is_no_older_than(Serial(half - 1)));
    // Half the range apart: compared the other way round.
    assert!(!Serial(half).is_no_older_than(Serial(0)));
    assert!(Serial(0).is_no_older_than(Serial(half)));
}

#[test]
fn counter_starts_at_one_and_counts_up() {
    let mut counter = SerialCounter::new();
    assert_eq!(counter.next_serial(), Serial(1));
    assert_eq!(counter.next_serial(), Serial(2));
    assert_eq!(counter.next_serial(), Serial(3));
}

#[test]
fn counter_wraps_around_and_never_hands_out_zero() {
    let mut counter = SerialCounter { next: u32::MAX };
    assert_eq!(counter.next_serial(), Serial(u32::MAX));
    assert_eq!(counter.next_serial(), Serial(1));
    assert_eq!(counter.next_serial(), Serial(2));
    let mut zero = SerialCounter { next: 0 };
    assert_eq!(zero.next_serial(), Serial(1));
}
