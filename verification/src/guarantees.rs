//! What holds of a client's state across syncs, pages and selections,
//! whatever the provider answers.

use crate::aggregator::{
    chronological, fed, ids_of, merge_leaves_no_empty_group, no_empty_group, opened_by,
    AggregatorView, MergeMode, RawEventView,
};
use crate::state::{
    awaits_page, page_applied, page_failed, selected_with, sync_applied, sync_failed, synced,
    well_formed, ClientStateView, ConversationBatchView, HistoryPageView, SyncPhase,
    SyncResponseView,
};
use crate::theorems::{
    feeding_again_changes_nothing, ids_ignore_order, nothing_enters_when_all_seen,
    prepend_opens_leading_group,
};
use vstd::prelude::*;

verus! {

/// A failed sync leaves the cursor where it was, so that the next sync asks
/// for the same window; the timeline, the seen ids, the selection and the
/// pager are untouched as well.
pub proof fn failed_sync_keeps_cursor(state: ClientStateView)
    ensures
        sync_failed(state).sync_cursor == state.sync_cursor,
        sync_failed(state).aggregator == state.aggregator,
        sync_failed(state).selected == state.selected,
        sync_failed(state).pagination_cursor == state.pagination_cursor,
        sync_failed(state).phase == SyncPhase::Failed,
{
}

/// A failed fetch of history leaves the pagination cursor, the timeline and
/// the seen ids as they were.
pub proof fn failed_page_keeps_timeline(state: ClientStateView)
    ensures
        page_failed(state).pagination_cursor == state.pagination_cursor,
        page_failed(state).aggregator == state.aggregator,
        page_failed(state).sync_cursor == state.sync_cursor,
        !page_failed(state).loading,
{
}

/// A successful sync takes the provider's token as it is, and moves neither
/// the selection nor the pager.
pub proof fn sync_takes_the_token(state: ClientStateView, response: SyncResponseView)
    ensures
        sync_applied(state, response).sync_cursor == Some(response.next_token),
        sync_applied(state, response).phase == SyncPhase::Idle,
        sync_applied(state, response).selected == state.selected,
        sync_applied(state, response).pagination_cursor == state.pagination_cursor,
        sync_applied(state, response).loading == state.loading,
{
}

/// Selecting a conversation starts afresh: the new timeline and the new set
/// of seen ids are those of the first page alone. What was seen or shown
/// before has no say, so an id that was seen in the conversation before is
/// read again like any other when it turns up in the new one.
pub proof fn selection_starts_afresh(
    before: ClientStateView,
    other: ClientStateView,
    conversation_id: Seq<char>,
    page: HistoryPageView,
)
    requires
        before.account_id == other.account_id,
    ensures
        selected_with(before, conversation_id, page).aggregator == selected_with(
            other,
            conversation_id,
            page,
        ).aggregator,
        selected_with(before, conversation_id, page).pagination_cursor == page.next_cursor,
        selected_with(before, conversation_id, page).selected == Some(conversation_id),
        selected_with(before, conversation_id, page).aggregator.seen == ids_of(page.events),
        selected_with(before, conversation_id, page).sync_cursor == before.sync_cursor,
{
    let after = selected_with(before, conversation_id, page);
    assert(after.aggregator.seen =~= ids_of(page.events));
}

/// An event that comes with the first page of a selection is put on the
/// timeline even if an event of the same id had been seen before the
/// selection.
pub proof fn known_id_enters_after_selection(
    before: ClientStateView,
    conversation_id: Seq<char>,
    raw: RawEventView,
    next_cursor: Option<Seq<char>>,
)
    requires
        raw.kind is Some,
    ensures
        selected_with(
            before,
            conversation_id,
            HistoryPageView { events: seq![raw], next_cursor },
        ).aggregator.timeline == seq![opened_by(raw, before.account_id)],
{
    let blank = AggregatorView { timeline: Seq::empty(), seen: Set::empty() };
    prepend_opens_leading_group(blank, raw, before.account_id);
    assert(seq![opened_by(raw, before.account_id)] + blank.timeline =~= seq![
        opened_by(raw, before.account_id),
    ]);
}

/// Selecting the same conversation again with the same first page gives the
/// state that the first selection gave.
pub proof fn selecting_again_is_idempotent(
    state: ClientStateView,
    conversation_id: Seq<char>,
    page: HistoryPageView,
)
    ensures
        selected_with(selected_with(state, conversation_id, page), conversation_id, page)
            == selected_with(state, conversation_id, page),
{
}

/// A sync changes nothing on the timeline while no conversation is selected.
pub proof fn sync_without_selection_shows_nothing(
    state: AggregatorView,
    batches: Seq<ConversationBatchView>,
    account_id: Seq<char>,
)
    ensures
        synced(state, None, batches, account_id) == state,
    decreases batches.len(),
{
    if batches.len() > 0 {
        sync_without_selection_shows_nothing(state, batches.drop_last(), account_id);
    }
}

/// Batches of conversations other than the selected one are passed over.
pub proof fn sync_passes_over_other_conversations(
    state: AggregatorView,
    selected: Seq<char>,
    batches: Seq<ConversationBatchView>,
    account_id: Seq<char>,
)
    requires
        forall|i: int| 0 <= i < batches.len() ==> (#[trigger] batches[i]).conversation_id != selected,
    ensures
        synced(state, Some(selected), batches, account_id) == state,
    decreases batches.len(),
{
    if batches.len() > 0 {
        let shorter = batches.drop_last();
        assert forall|i: int| 0 <= i < shorter.len() implies (#[trigger] shorter[i]).conversation_id
            != selected by {
            assert(shorter[i] == batches[i]);
        }
        sync_passes_over_other_conversations(state, selected, shorter, account_id);
        assert(batches.last() == batches[batches.len() - 1]);
    }
}

/// A sync never forgets an id.
pub proof fn sync_only_adds_ids(
    state: AggregatorView,
    selected: Option<Seq<char>>,
    batches: Seq<ConversationBatchView>,
    account_id: Seq<char>,
)
    ensures
        state.seen.subset_of(synced(state, selected, batches, account_id).seen),
    decreases batches.len(),
{
    if batches.len() > 0 {
        sync_only_adds_ids(state, selected, batches.drop_last(), account_id);
    }
}

/// A sync remembers every id of every batch of the selected conversation.
pub proof fn sync_remembers_selected_batches(
    state: AggregatorView,
    selected: Seq<char>,
    batches: Seq<ConversationBatchView>,
    account_id: Seq<char>,
    at: int,
)
    requires
        0 <= at < batches.len(),
        batches[at].conversation_id == selected,
    ensures
        ids_of(batches[at].events).subset_of(
            synced(state, Some(selected), batches, account_id).seen,
        ),
    decreases batches.len(),
{
    let shorter = batches.drop_last();
    if at < batches.len() - 1 {
        assert(shorter[at] == batches[at]);
        sync_remembers_selected_batches(state, selected, shorter, account_id, at);
    }
}

/// A state that has seen every id of the selected batches is left alone by
/// the sync.
proof fn sync_of_seen_batches_changes_nothing(
    state: AggregatorView,
    selected: Option<Seq<char>>,
    batches: Seq<ConversationBatchView>,
    account_id: Seq<char>,
)
    requires
        forall|i: int|
            0 <= i < batches.len() && selected == Some((#[trigger] batches[i]).conversation_id)
                ==> ids_of(batches[i].events).subset_of(state.seen),
    ensures
        synced(state, selected, batches, account_id) == state,
    decreases batches.len(),
{
    if batches.len() > 0 {
        let shorter = batches.drop_last();
        let last = batches.last();
        assert forall|i: int|
            0 <= i < shorter.len() && selected == Some(
                (#[trigger] shorter[i]).conversation_id,
            ) implies ids_of(shorter[i].events).subset_of(state.seen) by {
            assert(shorter[i] == batches[i]);
        }
        sync_of_seen_batches_changes_nothing(state, selected, shorter, account_id);
        if selected == Some(last.conversation_id) {
            assert(last == batches[batches.len() - 1]);
            let feed = chronological(last.events);
            ids_ignore_order(last.events);
            assert forall|i: int| 0 <= i < feed.len() implies state.seen.contains(
                (#[trigger] feed[i]).id,
            ) by {
                assert(ids_of(feed).contains(feed[i].id));
            }
            nothing_enters_when_all_seen(state.seen, feed);
            let after = fed(state, last.events, MergeMode::Append, account_id);
            assert(after.seen =~= state.seen);
            assert(after.timeline =~= state.timeline);
        }
    }
}

/// A sync leaves no group of the timeline empty.
pub proof fn sync_leaves_no_empty_group(
    state: AggregatorView,
    selected: Option<Seq<char>>,
    batches: Seq<ConversationBatchView>,
    account_id: Seq<char>,
)
    requires
        no_empty_group(state.timeline),
    ensures
        no_empty_group(synced(state, selected, batches, account_id).timeline),
    decreases batches.len(),
{
    if batches.len() > 0 {
        sync_leaves_no_empty_group(state, selected, batches.drop_last(), account_id);
        merge_leaves_no_empty_group(
            synced(state, selected, batches.drop_last(), account_id),
            batches.last().events,
            MergeMode::Append,
            account_id,
        );
    }
}

/// Every step keeps the state well formed: a sync that came back or failed,
/// an awaited page that arrived or failed, and a selection.
pub proof fn steps_keep_the_state_well_formed(
    state: ClientStateView,
    response: SyncResponseView,
    conversation_id: Seq<char>,
    page: HistoryPageView,
)
    requires
        well_formed(state),
    ensures
        well_formed(sync_applied(state, response)),
        well_formed(sync_failed(state)),
        awaits_page(state, conversation_id) ==> well_formed(page_applied(state, page)),
        well_formed(page_failed(state)),
        well_formed(selected_with(state, conversation_id, page)),
{
    sync_leaves_no_empty_group(state.aggregator, state.selected, response.batches, state.account_id);
    if state.selected is None {
        sync_without_selection_shows_nothing(state.aggregator, response.batches, state.account_id);
    }
    merge_leaves_no_empty_group(state.aggregator, page.events, MergeMode::Prepend, state.account_id);
    merge_leaves_no_empty_group(
        AggregatorView { timeline: Seq::empty(), seen: Set::empty() },
        page.events,
        MergeMode::Prepend,
        state.account_id,
    );
}

/// Repeating a sync window changes nothing: when the answer to a sync is
/// applied a second time, as after a failure that lost only the token, the
/// timeline and the seen ids stay as the first time left them.
pub proof fn repeated_window_is_absorbed(
    state: AggregatorView,
    selected: Option<Seq<char>>,
    batches: Seq<ConversationBatchView>,
    account_id: Seq<char>,
)
    ensures
        synced(synced(state, selected, batches, account_id), selected, batches, account_id)
            == synced(state, selected, batches, account_id),
{
    let once = synced(state, selected, batches, account_id);
    assert forall|i: int|
        0 <= i < batches.len() && selected == Some(
            (#[trigger] batches[i]).conversation_id,
        ) implies ids_of(batches[i].events).subset_of(once.seen) by {
        sync_remembers_selected_batches(state, selected->Some_0, batches, account_id, i);
    }
    sync_of_seen_batches_changes_nothing(once, selected, batches, account_id);
}

/// A page that arrives twice is absorbed as well: the timeline and the seen
/// ids are those that the first arrival left.
pub proof fn repeated_page_is_absorbed(state: ClientStateView, page: HistoryPageView)
    ensures
        page_applied(page_applied(state, page), page).aggregator == page_applied(
            state,
            page,
        ).aggregator,
{
    feeding_again_changes_nothing(
        state.aggregator,
        page.events,
        MergeMode::Prepend,
        MergeMode::Prepend,
        state.account_id,
    );
}

} // verus!
