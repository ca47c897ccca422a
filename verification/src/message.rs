//! What is decided about a message bubble before anything is drawn: on which
//! side it stands, which of its corners are round, whether the sender's name
//! and avatar go with it, and the time that is printed under it.

use chrono::{TimeZone, Utc};
use vstd::prelude::*;

verus! {

/// The side of the pane on which bubbles are drawn.
#[derive(Clone, Copy, Debug, PartialEq, Eq, Structural)]
pub enum MessageSide {
    Left,
    Right,
}

impl Default for MessageSide {
    fn default() -> (res: Self)
        ensures
            res == MessageSide::Left,
    {
        MessageSide::Left
    }
}

/// Which corners of a bubble are fully round. A corner that is not, is drawn
/// with the small radius that lets the bubbles of one group join up.
#[derive(Clone, Copy, Debug, PartialEq, Eq, Structural)]
pub struct BubbleCorners {
    pub nw: bool,
    pub ne: bool,
    pub sw: bool,
    pub se: bool,
}

/// Where one event stands in its group, and what is drawn with it.
#[derive(Clone, Copy, Debug, PartialEq, Eq, Structural)]
pub struct RowLayout {
    pub side: MessageSide,
    pub corners: BubbleCorners,
    pub shows_name: bool,
    pub shows_avatar: bool,
}

/// The side of a group's bubbles: our own messages follow the configured
/// side, everyone else's stay on the left.
pub open spec fn side_of(from_self: bool, own_side: MessageSide) -> MessageSide {
    if from_self {
        own_side
    } else {
        MessageSide::Left
    }
}

/// The corners of a bubble that stands on the left: the corners towards the
/// avatar are round only at the first and at the last bubble of the group.
pub open spec fn left_corners(is_first: bool, is_last: bool) -> BubbleCorners {
    BubbleCorners { nw: is_first, ne: true, sw: is_last, se: true }
}

/// `corners` as seen in a mirror: left and right change places.
pub open spec fn mirrored(corners: BubbleCorners) -> BubbleCorners {
    BubbleCorners { nw: corners.ne, ne: corners.nw, sw: corners.se, se: corners.sw }
}

/// The corners of a bubble. Only our own bubbles on the right are mirrored.
pub open spec fn corners_of(
    is_first: bool,
    is_last: bool,
    from_self: bool,
    own_side: MessageSide,
) -> BubbleCorners {
    if from_self && own_side == MessageSide::Right {
        mirrored(left_corners(is_first, is_last))
    } else {
        left_corners(is_first, is_last)
    }
}

/// What is drawn for the event at `index` of a group of `count` events.
pub open spec fn layout_of(index: int, count: int, from_self: bool, own_side: MessageSide) -> RowLayout {
    RowLayout {
        side: side_of(from_self, own_side),
        corners: corners_of(index == 0, index == count - 1, from_self, own_side),
        shows_name: !from_self && index == 0,
        shows_avatar: !from_self && index == count - 1,
    }
}

/// The side on which the bubbles of a group are drawn.
pub fn bubble_side(from_self: bool, own_side: MessageSide) -> (side: MessageSide)
    ensures
        side == side_of(from_self, own_side),
{
    if from_self {
        own_side
    } else {
        MessageSide::Left
    }
}

/// Which corners of a bubble are fully round.
pub fn calculate_bubble_rounding(
    is_first: bool,
    is_last: bool,
    from_self: bool,
    own_side: MessageSide,
) -> (corners: BubbleCorners)
    ensures
        corners == corners_of(is_first, is_last, from_self, own_side),
{
    let is_only = is_first && is_last;
    let nw = is_first || is_only;
    let ne = true;
    let sw = is_last || is_only;
    let se = true;
    if from_self && own_side == MessageSide::Right {
        BubbleCorners { nw: ne, ne: nw, sw: se, se: sw }
    } else {
        BubbleCorners { nw, ne, sw, se }
    }
}

/// What is drawn for the event at `index` of a group of `count` events: the
/// sender's name goes with the first bubble and the avatar with the last, and
/// neither with a bubble of our own.
pub fn layout_row(index: usize, count: usize, from_self: bool, own_side: MessageSide) -> (row:
    RowLayout)
    requires
        index < count,
    ensures
        row == layout_of(index as int, count as int, from_self, own_side),
{
    let is_first = index == 0;
    let is_last = index == count - 1;
    RowLayout {
        side: bubble_side(from_self, own_side),
        corners: calculate_bubble_rounding(is_first, is_last, from_self, own_side),
        shows_name: !from_self && is_first,
        shows_avatar: !from_self && is_last,
    }
}

/// Mirroring twice gives the corners back.
pub proof fn mirror_twice_is_identity(corners: BubbleCorners)
    ensures
        mirrored(mirrored(corners)) == corners,
{
}

/// A bubble always keeps the two corners round that point away from the
/// avatar, and a bubble that stands alone in its group is round all over.
pub proof fn outer_corners_are_round(
    is_first: bool,
    is_last: bool,
    from_self: bool,
    own_side: MessageSide,
)
    ensures
        ({
            let corners = corners_of(is_first, is_last, from_self, own_side);
            &&& (corners.nw && corners.sw) || (corners.ne && corners.se)
            &&& is_first && is_last ==> corners.nw && corners.ne && corners.sw && corners.se
        }),
{
}

/// The first second that has a clock time: midnight before the first day of
/// the year -262143.
pub const MIN_CLOCK_SECONDS: i64 = -8_334_601_228_800;

/// The last second that has a clock time: the last one of the year 262142.
pub const MAX_CLOCK_SECONDS: i64 = 8_210_266_876_799;

/// The last timestamp at or after the epoch that has a clock time.
pub const LAST_CLOCK_TIMESTAMP: u64 = 8_210_266_876_799;

/// The first timestamp before the epoch that has a clock time: the one that
/// stands for `MIN_CLOCK_SECONDS`.
pub const FIRST_CLOCK_TIMESTAMP: u64 = 18_446_735_739_108_322_816;

/// A timestamp read as a signed count of seconds, the upper half of the
/// unsigned range standing for the seconds before the epoch.
pub open spec fn signed_seconds(timestamp: u64) -> int {
    if timestamp <= i64::MAX {
        timestamp as int
    } else {
        timestamp - 0x1_0000_0000_0000_0000
    }
}

/// A signed count of seconds as a timestamp: the seconds before the epoch
/// take the upper half of the unsigned range.
pub open spec fn unsigned_timestamp(seconds: i64) -> u64 {
    if seconds >= 0 {
        seconds as u64
    } else {
        (seconds + 0x1_0000_0000_0000_0000) as u64
    }
}

/// The timestamp that stands for a signed count of seconds.
pub fn timestamp_of_seconds(seconds: i64) -> (timestamp: u64)
    ensures
        timestamp == unsigned_timestamp(seconds),
        signed_seconds(timestamp) == seconds,
{
    if seconds >= 0 {
        seconds as u64
    } else {
        let back: u64 = (-(seconds + 1)) as u64;
        u64::MAX - back
    }
}

/// Whether a timestamp falls into the years that have a clock time.
pub open spec fn has_clock_time(timestamp: u64) -> bool {
    MIN_CLOCK_SECONDS <= signed_seconds(timestamp) <= MAX_CLOCK_SECONDS
}

/// The character of a decimal digit.
pub open spec fn digit_char(digit: int) -> char
    recommends
        0 <= digit <= 9,
{
    (digit + 48) as char
}

/// The hour of the day of a second, counted from the epoch, in UTC.
pub open spec fn hour_of(seconds: int) -> int {
    (seconds % 86_400) / 3_600
}

/// The minute of the hour of a second, counted from the epoch, in UTC.
pub open spec fn minute_of(seconds: int) -> int {
    ((seconds % 86_400) / 60) % 60
}

/// The time of day of a second as `HH:MM`, in UTC, each part with two digits.
pub open spec fn clock_text(seconds: int) -> Seq<char> {
    seq![
        digit_char(hour_of(seconds) / 10),
        digit_char(hour_of(seconds) % 10),
        ':',
        digit_char(minute_of(seconds) / 10),
        digit_char(minute_of(seconds) % 10),
    ]
}

/// Calls chrono: `Utc.timestamp_opt(seconds, 0)`, then `format("%H:%M")` on the
/// date and time that it gives, and `to_string` on that. Inside the required
/// range chrono has a date for `seconds`; the text is the two-digit hour, a
/// colon and the two-digit minute of the time of day in UTC.
#[verifier::external_body]
fn utc_clock_text(seconds: i64) -> (text: String)
    requires
        MIN_CLOCK_SECONDS <= seconds <= MAX_CLOCK_SECONDS,
    ensures
        text@ == clock_text(seconds as int),
{
    Utc.timestamp_opt(seconds, 0).unwrap().format("%H:%M").to_string()
}

/// The time of day that is printed under a message, as `HH:MM` in UTC.
pub fn format_time(timestamp: u64) -> (text: String)
    requires
        has_clock_time(timestamp),
    ensures
        text@ == clock_text(signed_seconds(timestamp)),
{
    if timestamp <= 0x7fff_ffff_ffff_ffff {
        utc_clock_text(timestamp as i64)
    } else {
        let back: u64 = u64::MAX - timestamp;
        let seconds: i64 = -(back as i64) - 1;
        utc_clock_text(seconds)
    }
}

/// The time of day that is printed under a message, or `None` for a
/// timestamp outside the years that have a clock time.
pub fn checked_format_time(timestamp: u64) -> (res: Option<String>)
    ensures
        has_clock_time(timestamp) ==> res is Some && res->Some_0@ == clock_text(
            signed_seconds(timestamp),
        ),
        !has_clock_time(timestamp) ==> res is None,
{
    if timestamp <= LAST_CLOCK_TIMESTAMP || timestamp >= FIRST_CLOCK_TIMESTAMP {
        Some(format_time(timestamp))
    } else {
        None
    }
}

/// A clock time has five characters, and its hour and minute are those of a
/// day: the hour is below 24 and the minute below 60.
pub proof fn clock_text_is_a_time_of_day(seconds: int)
    ensures
        clock_text(seconds).len() == 5,
        0 <= hour_of(seconds) < 24,
        0 <= minute_of(seconds) < 60,
        clock_text(seconds)[2] == ':',
{
}

/// The clock repeats every day.
pub proof fn clock_text_repeats_daily(seconds: int)
    ensures
        clock_text(seconds + 86_400) == clock_text(seconds),
{
    assert((seconds + 86_400) % 86_400 == seconds % 86_400) by (nonlinear_arith);
}

} // verus!
