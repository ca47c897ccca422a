//! Folding raw provider events into the timeline of one conversation.
//!
//! A provider delivers a batch newest first. The aggregator reads it oldest
//! first, skips every event whose id it has already seen, remembers the ids it
//! meets, and gathers consecutive events of one sender into one group. New
//! events (`Append`) continue the timeline at its tail and may extend its last
//! group; paged-in history (`Prepend`) is grouped on its own and put in front
//! of the timeline, never merged into the group that was oldest before.

use crate::clients::{
    group_views, image_view, text_view, Event, EventGroup, EventGroupView,
    EventKind, EventKindView, EventView,
};
use std::sync::Arc;
use vstd::hash_set::StringHashSet;
use vstd::prelude::*;

verus! {

/// The direction in which a batch is merged into the timeline.
#[derive(Clone, Copy, Debug, PartialEq, Eq, Structural)]
pub enum MergeMode {
    /// New events: they continue the timeline at its tail.
    Append,
    /// Older history: it is put in front of the timeline.
    Prepend,
}

/// What a provider knows about a sender.
#[derive(Debug, PartialEq, Eq)]
pub struct SenderProfile {
    pub display_name: Option<String>,
    pub avatar: Option<Arc<[u8]>>,
}

/// Mathematical value of a [`SenderProfile`].
pub struct SenderProfileView {
    pub display_name: Option<Seq<char>>,
    pub avatar: Option<Seq<u8>>,
}

impl View for SenderProfile {
    type V = SenderProfileView;

    open spec fn view(&self) -> SenderProfileView {
        SenderProfileView {
            display_name: text_view(self.display_name),
            avatar: image_view(self.avatar),
        }
    }
}

/// An event as a provider adapter hands it over, before deduplication and
/// grouping. `kind` is `None` for an event of a kind that the timeline does
/// not show; `profile` is `None` when the sender could not be resolved.
#[derive(Debug, PartialEq, Eq)]
pub struct RawEvent {
    pub id: String,
    pub timestamp: u64,
    pub sender_id: String,
    pub kind: Option<EventKind>,
    pub profile: Option<SenderProfile>,
}

/// Mathematical value of a [`RawEvent`].
pub struct RawEventView {
    pub id: Seq<char>,
    pub timestamp: u64,
    pub sender_id: Seq<char>,
    pub kind: Option<EventKindView>,
    pub profile: Option<SenderProfileView>,
}

impl View for RawEvent {
    type V = RawEventView;

    open spec fn view(&self) -> RawEventView {
        RawEventView {
            id: self.id@,
            timestamp: self.timestamp,
            sender_id: self.sender_id@,
            kind: kind_view(self.kind),
            profile: profile_view(self.profile),
        }
    }
}

/// The value of an optional event kind.
pub open spec fn kind_view(kind: Option<EventKind>) -> Option<EventKindView> {
    match kind {
        Some(k) => Some(k@),
        None => None,
    }
}

/// The value of an optional sender profile.
pub open spec fn profile_view(profile: Option<SenderProfile>) -> Option<SenderProfileView> {
    match profile {
        Some(p) => Some(p@),
        None => None,
    }
}

/// The values of a batch of raw events, in the order of the batch.
pub open spec fn raw_views(batch: Seq<RawEvent>) -> Seq<RawEventView> {
    batch.map_values(|r: RawEvent| r@)
}

/// The name shown for the sender of `raw`: the resolved display name, or the
/// sender's id where the profile or its name is missing.
pub open spec fn shown_name(raw: RawEventView) -> Seq<char> {
    match raw.profile {
        Some(profile) => match profile.display_name {
            Some(name) => name,
            None => raw.sender_id,
        },
        None => raw.sender_id,
    }
}

/// The avatar shown for the sender of `raw`, if the profile has one.
pub open spec fn shown_avatar(raw: RawEventView) -> Option<Seq<u8>> {
    match raw.profile {
        Some(profile) => profile.avatar,
        None => None,
    }
}

/// The timeline event that a raw event of a supported kind becomes.
pub open spec fn event_of(raw: RawEventView) -> EventView
    recommends
        raw.kind is Some,
{
    EventView { id: raw.id, timestamp: raw.timestamp, kind: raw.kind->Some_0 }
}

/// The group that `raw` opens when it cannot join the group before it. Whether
/// the group is our own is fixed here, from its first event.
pub open spec fn opened_by(raw: RawEventView, account_id: Seq<char>) -> EventGroupView {
    EventGroupView {
        user_id: raw.sender_id,
        display_name: shown_name(raw),
        avatar: shown_avatar(raw),
        events: seq![event_of(raw)],
        from_self: raw.sender_id == account_id,
    }
}

/// `group` with one more event at its end.
pub open spec fn extended_by(group: EventGroupView, event: EventView) -> EventGroupView {
    EventGroupView { events: group.events.push(event), ..group }
}

/// The merge rule for one event: it joins the last group if that group is of
/// the same sender, and opens a new last group otherwise.
pub open spec fn place(groups: Seq<EventGroupView>, raw: RawEventView, account_id: Seq<char>) -> Seq<
    EventGroupView,
> {
    if groups.len() > 0 && groups.last().user_id == raw.sender_id {
        groups.drop_last().push(extended_by(groups.last(), event_of(raw)))
    } else {
        groups.push(opened_by(raw, account_id))
    }
}

/// `base` after the events of `feed` have been placed one by one, oldest first.
pub open spec fn grouped(
    base: Seq<EventGroupView>,
    feed: Seq<RawEventView>,
    account_id: Seq<char>,
) -> Seq<EventGroupView>
    decreases feed.len(),
{
    if feed.len() == 0 {
        base
    } else {
        place(grouped(base, feed.drop_last(), account_id), feed.last(), account_id)
    }
}

/// A batch in the order in which it is read: oldest first.
pub open spec fn chronological(batch: Seq<RawEventView>) -> Seq<RawEventView> {
    batch.reverse()
}

/// The ids that occur in `events`.
pub open spec fn ids_of(events: Seq<RawEventView>) -> Set<Seq<char>> {
    Set::new(|id: Seq<char>| exists|i: int| 0 <= i < events.len() && #[trigger] events[i].id == id)
}

/// Whether the id of `feed[i]` is met for the first time at `i`: it is not
/// among the ids seen before the batch, and no earlier event of the feed has
/// it.
pub open spec fn first_sight(seen: Set<Seq<char>>, feed: Seq<RawEventView>, i: int) -> bool {
    &&& !seen.contains(feed[i].id)
    &&& forall|j: int| 0 <= j < i ==> (#[trigger] feed[j]).id != feed[i].id
}

/// Whether `feed[i]` enters the timeline: its id is new and its kind is shown.
pub open spec fn enters(seen: Set<Seq<char>>, feed: Seq<RawEventView>, i: int) -> bool {
    first_sight(seen, feed, i) && feed[i].kind is Some
}

/// The events of `feed` that enter the timeline, in the order of the feed.
pub open spec fn accepted(seen: Set<Seq<char>>, feed: Seq<RawEventView>) -> Seq<RawEventView>
    decreases feed.len(),
{
    if feed.len() == 0 {
        Seq::empty()
    } else {
        let before = accepted(seen, feed.drop_last());
        if enters(seen, feed, feed.len() - 1) {
            before.push(feed.last())
        } else {
            before
        }
    }
}

/// The positions of `feed` whose events enter the timeline, ascending.
pub open spec fn entering(seen: Set<Seq<char>>, feed: Seq<RawEventView>) -> Seq<int>
    decreases feed.len(),
{
    if feed.len() == 0 {
        Seq::empty()
    } else {
        let before = entering(seen, feed.drop_last());
        if enters(seen, feed, feed.len() - 1) {
            before.push(feed.len() - 1)
        } else {
            before
        }
    }
}

/// The ids seen once `batch` has been read on top of `seen`. Every id of the
/// batch is in it, also that of an event that was dropped for its kind.
pub open spec fn seen_after(seen: Set<Seq<char>>, batch: Seq<RawEventView>) -> Set<Seq<char>> {
    seen.union(ids_of(batch))
}

/// The timeline after `batch`, delivered newest first, has been merged into
/// `timeline` in direction `mode`.
pub open spec fn merged(
    timeline: Seq<EventGroupView>,
    seen: Set<Seq<char>>,
    batch: Seq<RawEventView>,
    mode: MergeMode,
    account_id: Seq<char>,
) -> Seq<EventGroupView> {
    let fresh = accepted(seen, chronological(batch));
    match mode {
        MergeMode::Append => grouped(timeline, fresh, account_id),
        MergeMode::Prepend => grouped(Seq::empty(), fresh, account_id) + timeline,
    }
}

/// No group of the timeline is empty.
pub open spec fn no_empty_group(timeline: Seq<EventGroupView>) -> bool {
    forall|i: int| 0 <= i < timeline.len() ==> (#[trigger] timeline[i]).events.len() > 0
}

/// How many events a timeline holds, all groups together.
pub open spec fn event_total(timeline: Seq<EventGroupView>) -> nat
    decreases timeline.len(),
{
    if timeline.len() == 0 {
        0
    } else {
        event_total(timeline.drop_last()) + timeline.last().events.len()
    }
}

/// The state of an aggregator: the timeline, oldest group first, and the ids
/// of the events that have been read into it.
pub struct AggregatorView {
    pub timeline: Seq<EventGroupView>,
    pub seen: Set<Seq<char>>,
}

/// The state that an aggregator in state `state` reaches by reading `batch`.
pub open spec fn fed(
    state: AggregatorView,
    batch: Seq<RawEventView>,
    mode: MergeMode,
    account_id: Seq<char>,
) -> AggregatorView {
    AggregatorView {
        timeline: merged(state.timeline, state.seen, batch, mode, account_id),
        seen: seen_after(state.seen, batch),
    }
}

/// The timeline of the selected conversation together with the set of event
/// ids that keeps a repeated delivery from entering twice.
pub struct Aggregator {
    groups: Vec<EventGroup>,
    processed: StringHashSet,
}

impl View for Aggregator {
    type V = AggregatorView;

    closed spec fn view(&self) -> AggregatorView {
        AggregatorView { timeline: group_views(self.groups@), seen: self.processed@ }
    }
}

/// Applies the merge rule for one event of a shown kind to the end of `groups`.
fn place_event(
    groups: &mut Vec<EventGroup>,
    id: String,
    timestamp: u64,
    sender_id: String,
    kind: EventKind,
    profile: Option<SenderProfile>,
    account_id: &String,
)
    ensures
        group_views(final(groups)@) == place(
            group_views(old(groups)@),
            (RawEventView {
                id: id@,
                timestamp,
                sender_id: sender_id@,
                kind: Some(kind@),
                profile: profile_view(profile),
            }),
            account_id@,
        ),
{
    let ghost before = group_views(groups@);
    let ghost raw = RawEventView {
        id: id@,
        timestamp,
        sender_id: sender_id@,
        kind: Some(kind@),
        profile: profile_view(profile),
    };
    let event = Event { id, timestamp, kind };
    let n = groups.len();
    if n > 0 && groups[n - 1].user_id == sender_id {
        groups[n - 1].events.push(event);
        assert(group_views(groups@) =~= place(before, raw, account_id@)) by {
            assert(groups@[n - 1]@.events =~= before[n - 1].events.push(event@));
        }
    } else {
        let from_self = sender_id == *account_id;
        let (display_name, avatar) = match profile {
            Some(SenderProfile { display_name: Some(name), avatar }) => (name, avatar),
            Some(SenderProfile { display_name: None, avatar }) => (sender_id.clone(), avatar),
            None => (sender_id.clone(), None),
        };
        let mut events: Vec<Event> = Vec::new();
        events.push(event);
        let group = EventGroup { user_id: sender_id, display_name, avatar, events, from_self };
        assert(group@.events =~= seq![event_of(raw)]);
        groups.push(group);
        assert(group_views(groups@) =~= place(before, raw, account_id@));
    }
}

/// Grouping keeps every group non-empty.
pub proof fn grouping_leaves_no_empty_group(
    base: Seq<EventGroupView>,
    feed: Seq<RawEventView>,
    account_id: Seq<char>,
)
    requires
        no_empty_group(base),
    ensures
        no_empty_group(grouped(base, feed, account_id)),
    decreases feed.len(),
{
    if feed.len() > 0 {
        grouping_leaves_no_empty_group(base, feed.drop_last(), account_id);
    }
}

/// A merge in either direction keeps every group of the timeline non-empty.
pub proof fn merge_leaves_no_empty_group(
    state: AggregatorView,
    batch: Seq<RawEventView>,
    mode: MergeMode,
    account_id: Seq<char>,
)
    requires
        no_empty_group(state.timeline),
    ensures
        no_empty_group(fed(state, batch, mode, account_id).timeline),
{
    let fresh = accepted(state.seen, chronological(batch));
    match mode {
        MergeMode::Append => {
            grouping_leaves_no_empty_group(state.timeline, fresh, account_id);
        },
        MergeMode::Prepend => {
            grouping_leaves_no_empty_group(Seq::empty(), fresh, account_id);
        },
    }
}

/// A timeline holds at least as many events as any of its beginnings.
proof fn total_grows(timeline: Seq<EventGroupView>, len: int)
    requires
        0 <= len <= timeline.len(),
    ensures
        event_total(timeline.take(len)) <= event_total(timeline),
    decreases timeline.len(),
{
    if len == timeline.len() {
        assert(timeline.take(len) =~= timeline);
    } else {
        total_grows(timeline.drop_last(), len);
        assert(timeline.drop_last().take(len) =~= timeline.take(len));
    }
}

impl Aggregator {
    /// What holds of every aggregator: none of its groups is empty.
    #[verifier::type_invariant]
    spec fn every_group_has_events(self) -> bool {
        no_empty_group(group_views(self.groups@))
    }

    /// An empty timeline with nothing seen.
    pub fn new() -> (res: Self)
        ensures
            res@.timeline == Seq::<EventGroupView>::empty(),
            res@.seen == Set::<Seq<char>>::empty(),
    {
        let res = Aggregator { groups: Vec::new(), processed: StringHashSet::new() };
        assert(group_views(res.groups@) =~= Seq::<EventGroupView>::empty());
        res
    }

    /// Forgets the timeline and every id seen, as a change of conversation
    /// requires.
    pub fn reset(&mut self)
        ensures
            final(self)@.timeline == Seq::<EventGroupView>::empty(),
            final(self)@.seen == Set::<Seq<char>>::empty(),
    {
        *self = Aggregator::new();
    }

    /// Whether an event with this id has been read already.
    pub fn has_seen(&self, id: &str) -> (res: bool)
        ensures
            res == self@.seen.contains(id@),
    {
        self.processed.contains(id)
    }

    /// The groups of the timeline, oldest first. None of them is empty.
    pub fn groups(&self) -> (res: &Vec<EventGroup>)
        ensures
            group_views(res@) == self@.timeline,
            no_empty_group(self@.timeline),
            forall|i: int| 0 <= i < res@.len() ==> (#[trigger] res@[i]).events@.len() > 0,
    {
        proof {
            use_type_invariant(self);
            assert forall|i: int| 0 <= i < self.groups@.len() implies (
            #[trigger] self.groups@[i]).events@.len() > 0 by {
                assert(group_views(self.groups@)[i].events.len() > 0);
            }
        }
        &self.groups
    }

    /// How many events the timeline holds, or `usize::MAX` if they are more
    /// than that.
    pub fn event_count(&self) -> (count: usize)
        ensures
            count == (if event_total(self@.timeline) <= usize::MAX {
                event_total(self@.timeline)
            } else {
                usize::MAX as nat
            }),
    {
        let ghost timeline = group_views(self.groups@);
        let mut count: usize = 0;
        let mut i: usize = 0;
        assert(timeline.take(0) =~= Seq::<EventGroupView>::empty());
        while i < self.groups.len()
            invariant
                i <= self.groups@.len(),
                timeline == group_views(self.groups@),
                count == event_total(timeline.take(i as int)),
            decreases self.groups@.len() - i,
        {
            assert(timeline.take(i + 1).drop_last() =~= timeline.take(i as int));
            assert(timeline.take(i + 1).last().events.len() == self.groups@[i as int].events@.len());
            let len = self.groups[i].events.len();
            if len > usize::MAX - count {
                proof {
                    total_grows(timeline, i + 1);
                }
                return usize::MAX;
            }
            count = count + len;
            i += 1;
        }
        assert(timeline.take(self.groups@.len() as int) =~= timeline);
        count
    }

    /// A copy of the timeline for a reader that must not hold on to the
    /// aggregator.
    pub fn snapshot(&self) -> (res: Vec<EventGroup>)
        ensures
            group_views(res@) == self@.timeline,
            no_empty_group(self@.timeline),
    {
        proof {
            use_type_invariant(self);
        }
        crate::clients::copy_groups(&self.groups)
    }

    /// The places in `batch`, which the provider delivered newest first, of
    /// the events that will enter the timeline when the batch is fed: the
    /// ones whose sender is worth resolving. They are listed in reading
    /// order, oldest event first, so the places themselves descend.
    pub fn entering_places(&self, batch: &Vec<RawEvent>) -> (places: Vec<usize>)
        ensures
            places@.map_values(|place: usize| batch@.len() - 1 - place) == entering(
                self@.seen,
                chronological(raw_views(batch@)),
            ),
            forall|k: int| 0 <= k < places@.len() ==> (#[trigger] places@[k]) < batch@.len(),
    {
        let ghost seen0 = self.processed@;
        let ghost batch0 = raw_views(batch@);
        let ghost feed = chronological(batch0);
        let n = batch.len();
        let mut met = StringHashSet::new();
        let mut places: Vec<usize> = Vec::new();
        let mut done: usize = 0;
        assert(feed.take(0) =~= Seq::<RawEventView>::empty());
        assert(ids_of(feed.take(0)) =~= Set::<Seq<char>>::empty());
        assert(places@.map_values(|place: usize| n - 1 - place) =~= entering(seen0, feed.take(0)));
        while done < n
            invariant
                done <= n,
                n == batch@.len(),
                n == feed.len(),
                batch0 == raw_views(batch@),
                feed == chronological(batch0),
                seen0 == self.processed@,
                met@ == ids_of(feed.take(done as int)),
                places@.map_values(|place: usize| n - 1 - place) == entering(
                    seen0,
                    feed.take(done as int),
                ),
                forall|k: int| 0 <= k < places@.len() ==> (#[trigger] places@[k]) < n,
            decreases n - done,
        {
            let place = n - 1 - done;
            let raw = &batch[place];
            let ghost prefix = feed.take(done as int);
            let ghost next = feed.take(done + 1);
            proof {
                assert(raw@ == batch0[place as int]);
                assert(feed[done as int] == batch0[n - 1 - done]);
                assert(next.drop_last() =~= prefix);
                assert(next.last() == raw@);
                assert(ids_of(next) =~= ids_of(prefix).insert(raw@.id)) by {
                    assert forall|id: Seq<char>| ids_of(next).contains(id) implies ids_of(
                        prefix,
                    ).insert(raw@.id).contains(id) by {
                        let i = choose|i: int| 0 <= i < next.len() && #[trigger] next[i].id == id;
                        if i < done {
                            assert(prefix[i].id == id);
                        }
                    }
                    assert forall|id: Seq<char>| ids_of(prefix).insert(raw@.id).contains(
                        id,
                    ) implies ids_of(next).contains(id) by {
                        if id == raw@.id {
                            assert(next[done as int].id == id);
                        } else {
                            let i = choose|i: int|
                                0 <= i < prefix.len() && #[trigger] prefix[i].id == id;
                            assert(next[i].id == id);
                        }
                    }
                }
                assert(first_sight(seen0, next, done as int) <==> !seen0.contains(raw@.id)
                    && !met@.contains(raw@.id)) by {
                    if !seen0.contains(raw@.id) && !met@.contains(raw@.id) {
                        assert forall|j: int| 0 <= j < done implies (#[trigger] next[j]).id
                            != next[done as int].id by {
                            assert(prefix[j].id == next[j].id);
                        }
                    } else if !seen0.contains(raw@.id) {
                        let j = choose|j: int|
                            0 <= j < prefix.len() && #[trigger] prefix[j].id == raw@.id;
                        assert(next[j].id == next[done as int].id);
                    }
                }
            }
            let first = !self.processed.contains(raw.id.as_str()) && !met.contains(
                raw.id.as_str(),
            );
            met.insert(raw.id.clone());
            if first && raw.kind.is_some() {
                let ghost before = places@.map_values(|place: usize| n - 1 - place);
                places.push(place);
                assert(places@.map_values(|place: usize| n - 1 - place) =~= before.push(
                    done as int,
                ));
            }
            done += 1;
        }
        assert(feed.take(n as int) =~= feed);
        places
    }

    /// Reads `batch`, which the provider delivered newest first, and merges
    /// what is new in it into the timeline.
    pub fn feed(&mut self, batch: Vec<RawEvent>, mode: MergeMode, account_id: &str)
        ensures
            final(self)@ == fed(old(self)@, raw_views(batch@), mode, account_id@),
            no_empty_group(final(self)@.timeline),
    {
        proof {
            use_type_invariant(&*self);
        }
        let mut taken = Aggregator::new();
        std::mem::swap(self, &mut taken);
        let Aggregator { groups, processed } = taken;
        let mut groups = groups;
        let mut processed = processed;
        let ghost timeline0 = group_views(groups@);
        let ghost seen0 = processed@;
        let ghost batch0 = raw_views(batch@);
        let ghost feed = chronological(batch0);
        let ghost base = match mode {
            MergeMode::Append => timeline0,
            MergeMode::Prepend => Seq::<EventGroupView>::empty(),
        };
        let account = account_id.to_owned();
        let mut batch = batch;
        let mut target: Vec<EventGroup> = Vec::new();
        match mode {
            MergeMode::Append => {
                std::mem::swap(&mut target, &mut groups);
            },
            MergeMode::Prepend => {},
        }
        let n = batch.len();
        let mut done: usize = 0;
        assert(group_views(target@) =~= base);
        assert(feed.take(0) =~= Seq::<RawEventView>::empty());
        assert(seen0.union(ids_of(feed.take(0))) =~= seen0);
        while done < n
            invariant
                done <= n,
                n == batch0.len(),
                feed == chronological(batch0),
                no_empty_group(timeline0),
                base == (match mode {
                    MergeMode::Append => timeline0,
                    MergeMode::Prepend => Seq::<EventGroupView>::empty(),
                }),
                batch@.len() == n - done,
                raw_views(batch@) == batch0.take(n - done),
                account@ == account_id@,
                group_views(target@) == grouped(
                    base,
                    accepted(seen0, feed.take(done as int)),
                    account_id@,
                ),
                processed@ == seen0.union(ids_of(feed.take(done as int))),
                group_views(groups@) == (match mode {
                    MergeMode::Append => Seq::<EventGroupView>::empty(),
                    MergeMode::Prepend => timeline0,
                }),
            decreases n - done,
        {
            let ghost prefix = feed.take(done as int);
            let ghost next = feed.take(done + 1);
            let ghost remaining = raw_views(batch@);
            let raw = batch.pop().unwrap();
            let ghost raw_view = raw@;
            proof {
                assert(raw@ == remaining[n - done - 1]);
                assert(remaining[n - done - 1] == batch0[n - done - 1]);
                assert(feed[done as int] == batch0[n - 1 - done]);
                assert(next.drop_last() =~= prefix);
                assert(next.last() == raw@);
                assert(raw_views(batch@) =~= batch0.take(n - done - 1));
                assert(ids_of(next) =~= ids_of(prefix).insert(raw@.id)) by {
                    assert forall|id: Seq<char>| ids_of(next).contains(id) implies ids_of(
                        prefix,
                    ).insert(raw@.id).contains(id) by {
                        let i = choose|i: int| 0 <= i < next.len() && #[trigger] next[i].id == id;
                        if i < done {
                            assert(prefix[i].id == id);
                        }
                    }
                    assert forall|id: Seq<char>| ids_of(prefix).insert(raw@.id).contains(
                        id,
                    ) implies ids_of(next).contains(id) by {
                        if id == raw@.id {
                            assert(next[done as int].id == id);
                        } else {
                            let i = choose|i: int|
                                0 <= i < prefix.len() && #[trigger] prefix[i].id == id;
                            assert(next[i].id == id);
                        }
                    }
                }
                assert(first_sight(seen0, next, done as int) <==> !processed@.contains(
                    raw@.id,
                )) by {
                    if !processed@.contains(raw@.id) {
                        assert forall|j: int| 0 <= j < done implies (#[trigger] next[j]).id
                            != next[done as int].id by {
                            assert(prefix[j].id == next[j].id);
                        }
                    } else if !seen0.contains(raw@.id) {
                        let j = choose|j: int|
                            0 <= j < prefix.len() && #[trigger] prefix[j].id == raw@.id;
                        assert(next[j].id == next[done as int].id);
                    }
                }
            }
            let RawEvent { id, timestamp, sender_id, kind, profile } = raw;
            if processed.contains(id.as_str()) {
                assert(seen0.union(ids_of(next)) =~= processed@);
            } else {
                processed.insert(id.clone());
                assert(seen0.union(ids_of(next)) =~= processed@);
                match kind {
                    Some(kind) => {
                        proof {
                            let fresh = accepted(seen0, prefix);
                            assert(fresh.push(raw_view).drop_last() =~= fresh);
                        }
                        place_event(
                            &mut target,
                            id,
                            timestamp,
                            sender_id,
                            kind,
                            profile,
                            &account,
                        );
                    },
                    None => {},
                }
            }
            done += 1;
        }
        assert(feed.take(n as int) =~= feed);
        assert(ids_of(feed) =~= ids_of(batch0)) by {
            assert forall|id: Seq<char>| ids_of(feed).contains(id) implies ids_of(batch0).contains(
                id,
            ) by {
                let i = choose|i: int| 0 <= i < feed.len() && #[trigger] feed[i].id == id;
                assert(batch0[n - 1 - i].id == id);
            }
            assert forall|id: Seq<char>| ids_of(batch0).contains(id) implies ids_of(feed).contains(
                id,
            ) by {
                let i = choose|i: int| 0 <= i < batch0.len() && #[trigger] batch0[i].id == id;
                assert(feed[n - 1 - i].id == id);
            }
        }
        let ghost built = group_views(target@);
        proof {
            grouping_leaves_no_empty_group(base, accepted(seen0, feed), account_id@);
            assert(no_empty_group(built + timeline0));
        }
        target.append(&mut groups);
        assert(group_views(target@) =~= merged(timeline0, seen0, batch0, mode, account_id@)) by {
            match mode {
                MergeMode::Append => {
                    assert(group_views(target@) =~= built);
                },
                MergeMode::Prepend => {
                    assert(group_views(target@) =~= built + timeline0);
                },
            }
        }
        *self = Aggregator { groups: target, processed };
    }
}

} // verus!
