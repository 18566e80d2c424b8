use iced_divider::scale::{clamp, locate, offset, positive_step};

#[test]
fn clamp_keeps_a_value_of_the_range() {
    assert_eq!(clamp(100, 0, 400), 100);
    assert_eq!(clamp(0, 0, 400), 0);
    assert_eq!(clamp(400, 0, 400), 400);
}

#[test]
fn clamp_forces_a_value_into_the_range() {
    assert_eq!(clamp(-5, 0, 400), 0);
    assert_eq!(clamp(401, 0, 400), 400);
    assert_eq!(clamp(i32::MIN, -7, 7), -7);
    assert_eq!(clamp(i32::MAX, -7, 7), 7);
}

#[test]
fn clamp_on_a_range_of_one_value() {
    assert_eq!(clamp(3, 5, 5), 5);
    assert_eq!(clamp(9, 5, 5), 5);
}

#[test]
fn clamp_on_a_range_that_holds_nothing_gives_its_start() {
    assert_eq!(clamp(5, 9, 3), 9);
    assert_eq!(clamp(1, 9, 3), 9);
    assert_eq!(clamp(20, 9, 3), 9);
}

#[test]
fn positive_step_replaces_what_cannot_divide() {
    assert_eq!(positive_step(10), 10);
    assert_eq!(positive_step(1), 1);
    assert_eq!(positive_step(0), 1);
    assert_eq!(positive_step(-3), 1);
    assert_eq!(positive_step(i32::MIN), 1);
}

#[test]
fn locate_rounds_to_whole_steps() {
    assert_eq!(locate(0, 100, 10, 0, 100, 24), 20);
    assert_eq!(locate(0, 100, 10, 0, 100, 26), 30);
    assert_eq!(locate(0, 100, 10, 0, 100, 4), 0);
    assert_eq!(locate(0, 100, 10, 0, 100, 96), 100);
}

#[test]
fn locate_rounds_a_tie_up() {
    assert_eq!(locate(0, 100, 10, 0, 100, 25), 30);
    assert_eq!(locate(0, 100, 10, 0, 100, 5), 10);
    assert_eq!(locate(0, 3, 2, 0, 3, 1), 2);
}

#[test]
fn locate_takes_the_share_of_the_range() {
    assert_eq!(locate(0, 400, 1, 0, 400, 150), 150);
    assert_eq!(locate(0, 400, 1, 0, 200, 75), 150);
    assert_eq!(locate(100, 300, 1, 50, 400, 150), 150);
    assert_eq!(locate(-50, 50, 5, -200, 400, 0), 0);
}

#[test]
fn locate_never_passes_the_end() {
    assert_eq!(locate(0, 8, 5, 0, 100, 95), 8);
    assert_eq!(locate(0, 8, 5, 0, 100, 94), 8);
    assert_eq!(locate(0, 8, 5, 0, 100, 93), 5);
    assert_eq!(locate(0, 7, 5, 0, 7, 6), 5);
}

#[test]
fn locate_at_the_edges_of_the_track() {
    assert_eq!(locate(10, 90, 10, 0, 100, 0), 10);
    assert_eq!(locate(10, 90, 10, 0, 100, -1), 10);
    assert_eq!(locate(10, 90, 10, 0, 100, i32::MIN), 10);
    assert_eq!(locate(10, 90, 10, 0, 100, 100), 90);
    assert_eq!(locate(10, 90, 10, 0, 100, 101), 90);
    assert_eq!(locate(10, 90, 10, 0, 100, i32::MAX), 90);
}

#[test]
fn locate_on_a_track_without_length() {
    assert_eq!(locate(10, 90, 10, 5, 0, 5), 10);
    assert_eq!(locate(10, 90, 10, 5, 0, 4), 10);
    assert_eq!(locate(10, 90, 10, 5, 0, 6), 90);
}

#[test]
fn locate_on_a_range_that_holds_nothing_to_choose_from() {
    assert_eq!(locate(50, 50, 1, 0, 100, 30), 50);
    assert_eq!(locate(90, 10, 1, 0, 100, 30), 90);
    assert_eq!(locate(90, 10, 1, 0, 100, 0), 90);
    assert_eq!(locate(90, 10, 1, 0, 100, 100), 10);
}

#[test]
fn locate_with_the_widest_numbers() {
    assert_eq!(locate(i32::MIN, i32::MAX, 1, i32::MIN, u32::MAX, i32::MAX - 1), i32::MAX - 1);
    assert_eq!(locate(i32::MIN, i32::MAX, i32::MAX, i32::MIN, u32::MAX, 0), -1);
    assert_eq!(
        locate(i32::MIN, i32::MAX, i32::MAX, i32::MIN, u32::MAX, i32::MAX - 1),
        i32::MAX - 1
    );
    assert_eq!(locate(i32::MIN, i32::MAX, i32::MAX, i32::MIN, u32::MAX, i32::MIN + 1), i32::MIN);
    assert_eq!(locate(i32::MIN, i32::MAX, 1, i32::MIN, u32::MAX, i32::MAX), i32::MAX);
}

#[test]
fn locate_is_monotonic_along_the_track() {
    let mut last = i32::MIN;
    for coord in -5..=110 {
        let value = locate(0, 100, 7, 0, 100, coord);
        assert!(last <= value);
        assert!((0..=100).contains(&value));
        assert!(value == 100 || value % 7 == 0);
        last = value;
    }
}

#[test]
fn offset_takes_the_share_of_the_track() {
    assert_eq!(offset(100, 0, 400, 400), 100);
    assert_eq!(offset(100, 0, 400, 200), 50);
    assert_eq!(offset(0, 0, 400, 200), 0);
    assert_eq!(offset(400, 0, 400, 200), 200);
    assert_eq!(offset(-25, -50, 50, 1000), 250);
}

#[test]
fn offset_rounds_down() {
    assert_eq!(offset(1, 0, 3, 10), 3);
    assert_eq!(offset(2, 0, 3, 10), 6);
    assert_eq!(offset(1, 0, 400, 200), 0);
}

#[test]
fn offset_on_a_range_that_holds_nothing_to_choose_from() {
    assert_eq!(offset(5, 5, 5, 100), 0);
    assert_eq!(offset(9, 9, 3, 100), 0);
    assert_eq!(offset(0, 9, 3, 100), 0);
}

#[test]
fn offset_with_the_widest_numbers() {
    assert_eq!(offset(i32::MAX, i32::MIN, i32::MAX, u32::MAX), u32::MAX);
    assert_eq!(offset(i32::MIN, i32::MIN, i32::MAX, u32::MAX), 0);
    assert_eq!(offset(0, i32::MIN, i32::MAX, u32::MAX), 2147483648);
}

#[test]
fn locate_counts_a_step_that_is_not_positive_as_one() {
    assert_eq!(locate(0, 100, 0, 0, 100, 24), 24);
    assert_eq!(locate(0, 100, -10, 0, 100, 24), 24);
    assert_eq!(locate(0, 100, i32::MIN, 0, 200, 49), 25);
}

#[test]
fn offset_of_a_value_outside_the_range() {
    assert_eq!(offset(-5, 0, 400, 200), 0);
    assert_eq!(offset(500, 0, 400, 200), 200);
    assert_eq!(offset(i32::MIN, 0, 1, u32::MAX), 0);
    assert_eq!(offset(i32::MAX, 0, 1, u32::MAX), u32::MAX);
}
