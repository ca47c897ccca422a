//! What holds of the merge, whatever the batches are.
//!
//! Everything here is stated over the values of timelines and batches, the
//! same ones that the contract of `Aggregator::feed` speaks of.

use crate::aggregator::{
    accepted, chronological, entering, enters, event_of, extended_by, fed, first_sight, grouped, ids_of,
    opened_by, place, seen_after, AggregatorView, MergeMode, RawEventView,
};
use crate::clients::{EventGroupView, EventView};
use vstd::prelude::*;

verus! {

/// The events of a timeline in reading order, each with the sender of the
/// group that holds it.
pub open spec fn reading(timeline: Seq<EventGroupView>) -> Seq<(Seq<char>, EventView)>
    decreases timeline.len(),
{
    if timeline.len() == 0 {
        Seq::empty()
    } else {
        reading(timeline.drop_last()) + timeline.last().events.map_values(
            |e: EventView| (timeline.last().user_id, e),
        )
    }
}

/// The events of a feed in its order, each with its sender.
pub open spec fn arrivals(feed: Seq<RawEventView>) -> Seq<(Seq<char>, EventView)> {
    feed.map_values(|r: RawEventView| (r.sender_id, event_of(r)))
}

/// No two neighbouring groups are of the same sender: every group is a
/// longest possible run.
pub open spec fn neighbours_differ(timeline: Seq<EventGroupView>) -> bool {
    forall|i: int|
        0 < i < timeline.len() ==> (#[trigger] timeline[i]).user_id != timeline[i - 1].user_id
}

/// Reading a batch in reverse meets the same ids.
pub proof fn ids_ignore_order(batch: Seq<RawEventView>)
    ensures
        ids_of(chronological(batch)) == ids_of(batch),
{
    let feed = chronological(batch);
    let n = batch.len() as int;
    assert forall|id: Seq<char>| ids_of(feed).contains(id) implies ids_of(batch).contains(id) by {
        let i = choose|i: int| 0 <= i < feed.len() && #[trigger] feed[i].id == id;
        assert(batch[n - 1 - i].id == id);
    }
    assert forall|id: Seq<char>| ids_of(batch).contains(id) implies ids_of(feed).contains(id) by {
        let i = choose|i: int| 0 <= i < batch.len() && #[trigger] batch[i].id == id;
        assert(feed[n - 1 - i].id == id);
    }
    assert(ids_of(feed) =~= ids_of(batch));
}

/// Nothing enters from a feed whose ids have all been seen.
pub proof fn nothing_enters_when_all_seen(seen: Set<Seq<char>>, feed: Seq<RawEventView>)
    requires
        forall|i: int| 0 <= i < feed.len() ==> seen.contains((#[trigger] feed[i]).id),
    ensures
        accepted(seen, feed) == Seq::<RawEventView>::empty(),
    decreases feed.len(),
{
    if feed.len() > 0 {
        let shorter = feed.drop_last();
        assert forall|i: int| 0 <= i < shorter.len() implies seen.contains(
            (#[trigger] shorter[i]).id,
        ) by {
            assert(shorter[i] == feed[i]);
        }
        nothing_enters_when_all_seen(seen, shorter);
        assert(seen.contains(feed[feed.len() - 1].id));
    }
}

/// Feeding a batch again, in either direction, changes nothing: every id of
/// the batch was remembered the first time.
pub proof fn feeding_again_changes_nothing(
    state: AggregatorView,
    batch: Seq<RawEventView>,
    first: MergeMode,
    again: MergeMode,
    account_id: Seq<char>,
)
    ensures
        fed(fed(state, batch, first, account_id), batch, again, account_id) == fed(
            state,
            batch,
            first,
            account_id,
        ),
{
    let once = fed(state, batch, first, account_id);
    let twice = fed(once, batch, again, account_id);
    let feed = chronological(batch);
    ids_ignore_order(batch);
    assert forall|i: int| 0 <= i < feed.len() implies once.seen.contains(
        (#[trigger] feed[i]).id,
    ) by {
        assert(ids_of(feed).contains(feed[i].id));
    }
    nothing_enters_when_all_seen(once.seen, feed);
    assert(twice.seen =~= once.seen);
    assert(twice.timeline =~= once.timeline);
}

/// A batch of one new event of a shown kind is accepted whole.
pub proof fn single_new_event_is_accepted(seen: Set<Seq<char>>, raw: RawEventView)
    requires
        !seen.contains(raw.id),
        raw.kind is Some,
    ensures
        accepted(seen, chronological(seq![raw])) == seq![raw],
{
    let feed = chronological(seq![raw]);
    assert(feed =~= seq![raw]);
    assert(feed.drop_last() =~= Seq::<RawEventView>::empty());
    assert(accepted(seen, feed.drop_last()) =~= Seq::<RawEventView>::empty());
    assert(first_sight(seen, feed, 0));
    assert(feed.last() == raw);
    assert(accepted(seen, feed) =~= seq![raw]);
}

/// Appending a new event of the sender of the last group extends that group:
/// the timeline keeps its length, and only the last group changes, by one
/// event at its end.
pub proof fn append_extends_last_group(
    state: AggregatorView,
    raw: RawEventView,
    account_id: Seq<char>,
)
    requires
        state.timeline.len() > 0,
        state.timeline.last().user_id == raw.sender_id,
        !state.seen.contains(raw.id),
        raw.kind is Some,
    ensures
        fed(state, seq![raw], MergeMode::Append, account_id).timeline
            == state.timeline.drop_last().push(
            extended_by(state.timeline.last(), event_of(raw)),
        ),
{
    single_new_event_is_accepted(state.seen, raw);
    assert(seq![raw].drop_last() =~= Seq::<RawEventView>::empty());
    assert(grouped(state.timeline, seq![raw].drop_last(), account_id) == state.timeline);
    assert(seq![raw].last() == raw);
}

/// Appending a new event of another sender than that of the last group opens
/// a new last group and leaves every group before it as it was.
pub proof fn append_opens_group_for_other_sender(
    state: AggregatorView,
    raw: RawEventView,
    account_id: Seq<char>,
)
    requires
        state.timeline.len() == 0 || state.timeline.last().user_id != raw.sender_id,
        !state.seen.contains(raw.id),
        raw.kind is Some,
    ensures
        fed(state, seq![raw], MergeMode::Append, account_id).timeline == state.timeline.push(
            opened_by(raw, account_id),
        ),
{
    single_new_event_is_accepted(state.seen, raw);
    assert(seq![raw].drop_last() =~= Seq::<RawEventView>::empty());
    assert(grouped(state.timeline, seq![raw].drop_last(), account_id) == state.timeline);
    assert(seq![raw].last() == raw);
}

/// Prepending never touches the groups that were there: the timeline before
/// the call is the tail of the timeline after it, and what stands in front is
/// the batch grouped on its own.
pub proof fn prepend_keeps_timeline_as_tail(
    state: AggregatorView,
    batch: Seq<RawEventView>,
    account_id: Seq<char>,
)
    ensures
        ({
            let after = fed(state, batch, MergeMode::Prepend, account_id).timeline;
            let added = after.len() - state.timeline.len();
            &&& added >= 0
            &&& after.skip(added) == state.timeline
            &&& after.take(added) == grouped(
                Seq::empty(),
                accepted(state.seen, chronological(batch)),
                account_id,
            )
        }),
{
    let front = grouped(Seq::empty(), accepted(state.seen, chronological(batch)), account_id);
    let after = fed(state, batch, MergeMode::Prepend, account_id).timeline;
    assert(after == front + state.timeline);
    assert(after.skip(front.len() as int) =~= state.timeline);
    assert(after.take(front.len() as int) =~= front);
}

/// Prepending one new event opens a group of its own in front of the
/// timeline, also where the oldest group is of the same sender.
pub proof fn prepend_opens_leading_group(
    state: AggregatorView,
    raw: RawEventView,
    account_id: Seq<char>,
)
    requires
        !state.seen.contains(raw.id),
        raw.kind is Some,
    ensures
        fed(state, seq![raw], MergeMode::Prepend, account_id).timeline == seq![
            opened_by(raw, account_id),
        ] + state.timeline,
{
    single_new_event_is_accepted(state.seen, raw);
    assert(seq![raw].drop_last() =~= Seq::<RawEventView>::empty());
    assert(grouped(Seq::empty(), seq![raw].drop_last(), account_id)
        == Seq::<EventGroupView>::empty());
    assert(seq![raw].last() == raw);
    assert(grouped(Seq::empty(), seq![raw], account_id) =~= seq![opened_by(raw, account_id)]);
}

/// Placing an event adds it, under its own sender, at the end of the reading
/// order and moves nothing else.
pub proof fn place_adds_at_the_end(
    timeline: Seq<EventGroupView>,
    raw: RawEventView,
    account_id: Seq<char>,
)
    ensures
        reading(place(timeline, raw, account_id)) == reading(timeline).push(
            (raw.sender_id, event_of(raw)),
        ),
{
    let after = place(timeline, raw, account_id);
    if timeline.len() > 0 && timeline.last().user_id == raw.sender_id {
        let last = timeline.last();
        let longer = extended_by(last, event_of(raw));
        assert(after.drop_last() =~= timeline.drop_last());
        assert(longer.events.map_values(|e: EventView| (longer.user_id, e))
            =~= last.events.map_values(|e: EventView| (last.user_id, e)).push(
            (raw.sender_id, event_of(raw)),
        ));
        assert(reading(after) =~= reading(timeline).push((raw.sender_id, event_of(raw))));
    } else {
        let opened = opened_by(raw, account_id);
        assert(after.drop_last() =~= timeline);
        assert(opened.events.map_values(|e: EventView| (opened.user_id, e)) =~= seq![
            (raw.sender_id, event_of(raw)),
        ]);
        assert(reading(after) =~= reading(timeline).push((raw.sender_id, event_of(raw))));
    }
}

/// Grouping a feed onto a timeline adds the events of the feed, in the order
/// of the feed and each under its own sender, behind what the timeline held.
pub proof fn grouping_keeps_order(
    base: Seq<EventGroupView>,
    feed: Seq<RawEventView>,
    account_id: Seq<char>,
)
    ensures
        reading(grouped(base, feed, account_id)) == reading(base) + arrivals(feed),
    decreases feed.len(),
{
    if feed.len() == 0 {
        assert(reading(base) + arrivals(feed) =~= reading(base));
    } else {
        grouping_keeps_order(base, feed.drop_last(), account_id);
        place_adds_at_the_end(grouped(base, feed.drop_last(), account_id), feed.last(), account_id);
        assert(arrivals(feed) =~= arrivals(feed.drop_last()).push(
            (feed.last().sender_id, event_of(feed.last())),
        ));
        assert(reading(grouped(base, feed, account_id)) =~= reading(base) + arrivals(feed));
    }
}

/// The reading order of two timelines put one after the other is the reading
/// order of the first followed by that of the second.
pub proof fn reading_of_joined(front: Seq<EventGroupView>, back: Seq<EventGroupView>)
    ensures
        reading(front + back) == reading(front) + reading(back),
    decreases back.len(),
{
    if back.len() == 0 {
        assert(front + back =~= front);
        assert(reading(front) + reading(back) =~= reading(front));
    } else {
        reading_of_joined(front, back.drop_last());
        assert((front + back).drop_last() =~= front + back.drop_last());
        assert((front + back).last() == back.last());
        assert(reading(front + back) =~= reading(front) + reading(back));
    }
}

/// A merge keeps the reading order of what was there and of what enters:
/// appended events follow the old ones, prepended events come before them,
/// and in both cases they stand in the order in which the batch, read oldest
/// first, had them.
pub proof fn merge_keeps_order(
    state: AggregatorView,
    batch: Seq<RawEventView>,
    mode: MergeMode,
    account_id: Seq<char>,
)
    ensures
        reading(fed(state, batch, mode, account_id).timeline) == (match mode {
            MergeMode::Append => reading(state.timeline) + arrivals(
                accepted(state.seen, chronological(batch)),
            ),
            MergeMode::Prepend => arrivals(accepted(state.seen, chronological(batch))) + reading(
                state.timeline,
            ),
        }),
{
    let fresh = accepted(state.seen, chronological(batch));
    match mode {
        MergeMode::Append => {
            grouping_keeps_order(state.timeline, fresh, account_id);
        },
        MergeMode::Prepend => {
            let front = grouped(Seq::empty(), fresh, account_id);
            grouping_keeps_order(Seq::empty(), fresh, account_id);
            reading_of_joined(front, state.timeline);
            assert(reading(Seq::<EventGroupView>::empty()) + arrivals(fresh) =~= arrivals(fresh));
        },
    }
}

/// After new events were appended and older ones were then paged in, the
/// timeline reads: the paged-in events, what was there at the start, the
/// appended events; each part in the order of its own batch.
pub proof fn append_then_prepend_reads_in_order(
    state: AggregatorView,
    newer: Seq<RawEventView>,
    older: Seq<RawEventView>,
    account_id: Seq<char>,
)
    ensures
        ({
            let appended = fed(state, newer, MergeMode::Append, account_id);
            let paged = fed(appended, older, MergeMode::Prepend, account_id);
            reading(paged.timeline) == arrivals(accepted(appended.seen, chronological(older)))
                + reading(state.timeline) + arrivals(accepted(state.seen, chronological(newer)))
        }),
{
    let appended = fed(state, newer, MergeMode::Append, account_id);
    merge_keeps_order(state, newer, MergeMode::Append, account_id);
    merge_keeps_order(appended, older, MergeMode::Prepend, account_id);
    let a = arrivals(accepted(appended.seen, chronological(older)));
    let b = reading(state.timeline);
    let c = arrivals(accepted(state.seen, chronological(newer)));
    assert(a + (b + c) =~= a + b + c);
}

/// Whether an event enters depends on the events before it only.
pub proof fn entering_ignores_later_events(
    seen: Set<Seq<char>>,
    feed: Seq<RawEventView>,
    len: int,
    i: int,
)
    requires
        0 <= i < len <= feed.len(),
    ensures
        enters(seen, feed.take(len), i) == enters(seen, feed, i),
{
    let shorter = feed.take(len);
    assert(shorter[i] == feed[i]);
    if first_sight(seen, feed, i) {
        assert forall|j: int| 0 <= j < i implies (#[trigger] shorter[j]).id != shorter[i].id by {
            assert(shorter[j] == feed[j]);
        }
    }
    if first_sight(seen, shorter, i) {
        assert forall|j: int| 0 <= j < i implies (#[trigger] feed[j]).id != feed[i].id by {
            assert(shorter[j] == feed[j]);
        }
    }
}

/// The accepted events are a selection from the feed that keeps its order and
/// leaves no gap: they are the events at the entering positions; those
/// positions ascend; each of them is a position whose event enters; and every
/// position whose event enters is among them.
pub proof fn accepted_is_an_ordered_selection(seen: Set<Seq<char>>, feed: Seq<RawEventView>)
    ensures
        accepted(seen, feed) == entering(seen, feed).map_values(|i: int| feed[i]),
        forall|k: int|
            0 <= k < entering(seen, feed).len() ==> 0 <= (#[trigger] entering(seen, feed)[k])
                < feed.len() && enters(seen, feed, entering(seen, feed)[k]),
        forall|k: int, l: int|
            0 <= k < l < entering(seen, feed).len() ==> (#[trigger] entering(seen, feed)[k]) < (
            #[trigger] entering(seen, feed)[l]),
        forall|i: int|
            0 <= i < feed.len() && enters(seen, feed, i) ==> #[trigger] entering(
                seen,
                feed,
            ).contains(i),
    decreases feed.len(),
{
    let picks = entering(seen, feed);
    if feed.len() == 0 {
        assert(accepted(seen, feed) =~= picks.map_values(|i: int| feed[i]));
    } else {
        let n = feed.len() as int;
        let shorter = feed.drop_last();
        let before = entering(seen, shorter);
        accepted_is_an_ordered_selection(seen, shorter);
        assert(shorter =~= feed.take(n - 1));
        assert forall|i: int| 0 <= i < n - 1 implies enters(seen, shorter, i) == enters(
            seen,
            feed,
            i,
        ) by {
            entering_ignores_later_events(seen, feed, n - 1, i);
        }
        assert forall|k: int| 0 <= k < before.len() implies before.map_values(
            |i: int| shorter[i],
        )[k] == feed[before[k]] by {
            assert(0 <= before[k] < shorter.len());
        }
        assert(accepted(seen, feed) =~= picks.map_values(|i: int| feed[i]));
        assert forall|k: int| 0 <= k < picks.len() implies 0 <= (#[trigger] picks[k]) < n
            && enters(seen, feed, picks[k]) by {
            if k < before.len() {
                assert(0 <= before[k] < shorter.len());
            }
        }
        assert forall|k: int, l: int| 0 <= k < l < picks.len() implies (#[trigger] picks[k]) < (
        #[trigger] picks[l]) by {
            if l < before.len() {
                assert(before[k] < before[l]);
            } else {
                assert(0 <= before[k] < shorter.len());
            }
        }
        assert forall|i: int| 0 <= i < n && enters(seen, feed, i) implies picks.contains(i) by {
            if i < n - 1 {
                assert(before.contains(i));
                let k = choose|k: int| 0 <= k < before.len() && before[k] == i;
                assert(picks[k] == i);
            } else {
                assert(picks[picks.len() - 1] == i);
            }
        }
    }
}

/// Whether a batch is in the order in which a provider delivers it: no event
/// is older than one that comes after it.
pub open spec fn newest_first(batch: Seq<RawEventView>) -> bool {
    forall|i: int, j: int|
        0 <= i < j < batch.len() ==> (#[trigger] batch[i]).timestamp >= (
        #[trigger] batch[j]).timestamp
}

/// Whether events read oldest to newest: no event is newer than one that
/// comes after it.
pub open spec fn in_time_order(events: Seq<(Seq<char>, EventView)>) -> bool {
    forall|i: int, j: int|
        0 <= i < j < events.len() ==> (#[trigger] events[i]).1.timestamp <= (
        #[trigger] events[j]).1.timestamp
}

/// What enters from a batch that was delivered newest first reads oldest to
/// newest.
pub proof fn accepted_events_are_in_time_order(seen: Set<Seq<char>>, batch: Seq<RawEventView>)
    requires
        newest_first(batch),
    ensures
        in_time_order(arrivals(accepted(seen, chronological(batch)))),
{
    let feed = chronological(batch);
    let picks = entering(seen, feed);
    let events = arrivals(accepted(seen, feed));
    let n = batch.len() as int;
    accepted_is_an_ordered_selection(seen, feed);
    assert forall|i: int, j: int| 0 <= i < j < events.len() implies (#[trigger] events[i]).1.timestamp
        <= (#[trigger] events[j]).1.timestamp by {
        assert(0 <= picks[i] < picks[j] < n);
        assert(feed[picks[i]] == batch[n - 1 - picks[i]]);
        assert(feed[picks[j]] == batch[n - 1 - picks[j]]);
        assert(events[i].1.timestamp == batch[n - 1 - picks[i]].timestamp);
        assert(events[j].1.timestamp == batch[n - 1 - picks[j]].timestamp);
    }
}

/// A timeline that was filled with new events and then with a page of older
/// ones reads oldest to newest from end to end, provided that the provider
/// delivered each batch newest first and that the page holds nothing newer
/// than what was appended.
pub proof fn append_then_prepend_is_in_time_order(
    newer: Seq<RawEventView>,
    older: Seq<RawEventView>,
    account_id: Seq<char>,
)
    requires
        newest_first(newer),
        newest_first(older),
        forall|i: int, j: int|
            0 <= i < older.len() && 0 <= j < newer.len() ==> (#[trigger] older[i]).timestamp <= (
            #[trigger] newer[j]).timestamp,
    ensures
        ({
            let blank = AggregatorView { timeline: Seq::empty(), seen: Set::empty() };
            let appended = fed(blank, newer, MergeMode::Append, account_id);
            let paged = fed(appended, older, MergeMode::Prepend, account_id);
            in_time_order(reading(paged.timeline))
        }),
{
    let blank = AggregatorView { timeline: Seq::empty(), seen: Set::empty() };
    let appended = fed(blank, newer, MergeMode::Append, account_id);
    let paged = fed(appended, older, MergeMode::Prepend, account_id);
    let front = arrivals(accepted(appended.seen, chronological(older)));
    let back = arrivals(accepted(blank.seen, chronological(newer)));
    append_then_prepend_reads_in_order(blank, newer, older, account_id);
    assert(reading(blank.timeline) =~= Seq::<(Seq<char>, EventView)>::empty());
    assert(reading(paged.timeline) =~= front + back);
    accepted_events_are_in_time_order(appended.seen, older);
    accepted_events_are_in_time_order(blank.seen, newer);
    accepted_is_an_ordered_selection(appended.seen, chronological(older));
    accepted_is_an_ordered_selection(blank.seen, chronological(newer));
    let all = front + back;
    let old_feed = chronological(older);
    let new_feed = chronological(newer);
    let old_picks = entering(appended.seen, old_feed);
    let new_picks = entering(blank.seen, new_feed);
    assert forall|i: int, j: int| 0 <= i < j < all.len() implies (#[trigger] all[i]).1.timestamp <= (
    #[trigger] all[j]).1.timestamp by {
        if j < front.len() {
            assert(all[i] == front[i] && all[j] == front[j]);
        } else if i >= front.len() {
            assert(all[i] == back[i - front.len()] && all[j] == back[j - front.len()]);
        } else {
            let a = old_picks[i];
            let b = new_picks[j - front.len()];
            assert(0 <= a < old_feed.len());
            assert(0 <= b < new_feed.len());
            assert(all[i] == front[i]);
            assert(all[j] == back[j - front.len()]);
            assert(old_feed[a] == older[older.len() - 1 - a]);
            assert(new_feed[b] == newer[newer.len() - 1 - b]);
            assert(front[i].1.timestamp == older[older.len() - 1 - a].timestamp);
            assert(back[j - front.len()].1.timestamp == newer[newer.len() - 1 - b].timestamp);
        }
    }
}

/// Grouping never puts two groups of one sender next to each other, so each
/// group it builds is a longest run of one sender.
pub proof fn grouping_builds_longest_runs(
    base: Seq<EventGroupView>,
    feed: Seq<RawEventView>,
    account_id: Seq<char>,
)
    requires
        neighbours_differ(base),
    ensures
        neighbours_differ(grouped(base, feed, account_id)),
    decreases feed.len(),
{
    if feed.len() > 0 {
        grouping_builds_longest_runs(base, feed.drop_last(), account_id);
    }
}

/// Every id of a batch is remembered, whether its event entered or not, and
/// nothing else is.
pub proof fn merge_remembers_the_batch(
    state: AggregatorView,
    batch: Seq<RawEventView>,
    mode: MergeMode,
    account_id: Seq<char>,
)
    ensures
        forall|id: Seq<char>|
            fed(state, batch, mode, account_id).seen.contains(id) <==> state.seen.contains(id) || (
            exists|i: int| 0 <= i < batch.len() && #[trigger] batch[i].id == id),
{
    assert forall|id: Seq<char>|
        fed(state, batch, mode, account_id).seen.contains(id) <==> state.seen.contains(id) || (
        exists|i: int| 0 <= i < batch.len() && #[trigger] batch[i].id == id) by {
        assert(seen_after(state.seen, batch).contains(id) <==> state.seen.contains(id) || ids_of(
            batch,
        ).contains(id));
    }
}

} // verus!
