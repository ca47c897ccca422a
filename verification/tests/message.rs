use echat::message::{
    bubble_side, calculate_bubble_rounding, checked_format_time, format_time, layout_row,
    timestamp_of_seconds, BubbleCorners, MessageSide, RowLayout, MAX_CLOCK_SECONDS,
    MIN_CLOCK_SECONDS,
};

fn corners(nw: bool, ne: bool, sw: bool, se: bool) -> BubbleCorners {
    BubbleCorners { nw, ne, sw, se }
}

#[test]
fn default_side_is_left() {
    assert_eq!(MessageSide::default(), MessageSide::Left);
}

#[test]
fn only_own_messages_follow_the_configured_side() {
    assert_eq!(bubble_side(true, MessageSide::Right), MessageSide::Right);
    assert_eq!(bubble_side(true, MessageSide::Left), MessageSide::Left);
    assert_eq!(bubble_side(false, MessageSide::Right), MessageSide::Left);
    assert_eq!(bubble_side(false, MessageSide::Left), MessageSide::Left);
}

#[test]
fn corners_on_the_left() {
    assert_eq!(calculate_bubble_rounding(true, true, false, MessageSide::Left), corners(true, true, true, true));
    assert_eq!(calculate_bubble_rounding(true, false, false, MessageSide::Left), corners(true, true, false, true));
    assert_eq!(calculate_bubble_rounding(false, true, false, MessageSide::Left), corners(false, true, true, true));
    assert_eq!(calculate_bubble_rounding(false, false, false, MessageSide::Left), corners(false, true, false, true));
    // Our own bubbles on the left look like everybody else's.
    assert_eq!(calculate_bubble_rounding(true, false, true, MessageSide::Left), corners(true, true, false, true));
    // Others are never mirrored, whatever our own side is.
    assert_eq!(calculate_bubble_rounding(true, false, false, MessageSide::Right), corners(true, true, false, true));
}

#[test]
fn own_corners_on_the_right_are_mirrored() {
    assert_eq!(calculate_bubble_rounding(true, true, true, MessageSide::Right), corners(true, true, true, true));
    assert_eq!(calculate_bubble_rounding(true, false, true, MessageSide::Right), corners(true, true, true, false));
    assert_eq!(calculate_bubble_rounding(false, true, true, MessageSide::Right), corners(true, false, true, true));
    assert_eq!(calculate_bubble_rounding(false, false, true, MessageSide::Right), corners(true, false, true, false));
}

#[test]
fn name_goes_with_the_first_row_and_avatar_with_the_last() {
    let first = layout_row(0, 3, false, MessageSide::Right);
    assert_eq!(
        first,
        RowLayout {
            side: MessageSide::Left,
            corners: corners(true, true, false, true),
            shows_name: true,
            shows_avatar: false,
        }
    );
    let middle = layout_row(1, 3, false, MessageSide::Right);
    assert!(!middle.shows_name && !middle.shows_avatar);
    assert_eq!(middle.corners, corners(false, true, false, true));
    let last = layout_row(2, 3, false, MessageSide::Right);
    assert!(!last.shows_name && last.shows_avatar);
    assert_eq!(last.corners, corners(false, true, true, true));
    let only = layout_row(0, 1, false, MessageSide::Left);
    assert!(only.shows_name && only.shows_avatar);
    assert_eq!(only.corners, corners(true, true, true, true));
}

#[test]
fn own_rows_show_neither_name_nor_avatar() {
    for index in 0..3 {
        let row = layout_row(index, 3, true, MessageSide::Right);
        assert_eq!(row.side, MessageSide::Right);
        assert!(!row.shows_name);
        assert!(!row.shows_avatar);
    }
}

#[test]
fn clock_time_of_known_seconds() {
    assert_eq!(format_time(0), "00:00");
    assert_eq!(format_time(59), "00:00");
    assert_eq!(format_time(60), "00:01");
    assert_eq!(format_time(3_599), "00:59");
    assert_eq!(format_time(3_600), "01:00");
    assert_eq!(format_time(86_399), "23:59");
    assert_eq!(format_time(86_400), "00:00");
    assert_eq!(format_time(1_431_648_000), "00:00");
    assert_eq!(format_time(1_700_000_000), "22:13");
    assert_eq!(format_time(45_296), "12:34");
}

#[test]
fn clock_time_at_the_ends_of_the_range() {
    assert_eq!(MAX_CLOCK_SECONDS, 8_210_266_876_799);
    assert_eq!(MIN_CLOCK_SECONDS, -8_334_601_228_800);
    assert_eq!(format_time(8_210_266_876_799), "23:59");
    assert_eq!(checked_format_time(8_210_266_876_799), Some("23:59".to_string()));
    assert_eq!(checked_format_time(8_210_266_876_800), None);
    assert_eq!(checked_format_time(u64::MAX / 2), None);
    assert_eq!(checked_format_time(u64::MAX / 2 + 1), None);
}

#[test]
fn clock_time_before_the_epoch() {
    // The upper half of the range stands for the seconds before the epoch.
    assert_eq!(format_time(u64::MAX), "23:59");
    assert_eq!(format_time(u64::MAX - 59), "23:59");
    assert_eq!(format_time(u64::MAX - 60), "23:58");
    assert_eq!(format_time(timestamp_of_seconds(-86_400)), "00:00");
    assert_eq!(format_time(timestamp_of_seconds(-1)), "23:59");
    assert_eq!(format_time(timestamp_of_seconds(-3_601)), "22:59");
    let first = timestamp_of_seconds(MIN_CLOCK_SECONDS);
    assert_eq!(checked_format_time(first), Some("00:00".to_string()));
    assert_eq!(checked_format_time(first - 1), None);
}

#[test]
fn checked_clock_time_agrees_inside_the_range() {
    for timestamp in [0u64, 1, 61, 1_700_000_000, 8_210_266_876_799, u64::MAX] {
        assert_eq!(checked_format_time(timestamp), Some(format_time(timestamp)));
    }
}

#[test]
fn signed_seconds_become_timestamps() {
    assert_eq!(timestamp_of_seconds(0), 0);
    assert_eq!(timestamp_of_seconds(1_700_000_000), 1_700_000_000);
    assert_eq!(timestamp_of_seconds(i64::MAX), i64::MAX as u64);
    assert_eq!(timestamp_of_seconds(-1), u64::MAX);
    assert_eq!(timestamp_of_seconds(-2), u64::MAX - 1);
    assert_eq!(timestamp_of_seconds(i64::MIN), 1u64 << 63);
    for seconds in [-5i64, -86_400, i64::MIN, 7, i64::MAX] {
        assert_eq!(timestamp_of_seconds(seconds), seconds as u64);
    }
}
