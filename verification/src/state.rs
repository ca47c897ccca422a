//! The state of one client and the decisions of its sync engine and history
//! pager.
//!
//! Nothing here talks to a provider. Each operation that needs the provider
//! comes in two halves: one that decides what to ask for, and one that takes
//! what the provider answered, or the error it gave, and moves the state on.
//! The caller performs the request between the two. A failed request never
//! changes the timeline, the set of seen ids, or a cursor.

use crate::aggregator::{
    chronological, entering, event_total, fed, no_empty_group, raw_views, Aggregator,
    AggregatorView, MergeMode, RawEvent, RawEventView,
};
use crate::clients::{copy_text, group_views, text_view, EventGroup};
use crate::error::ClientError;
use crate::session::{key_text, storage_key, ProviderKind};
use crate::text::is_text;
use vstd::prelude::*;

verus! {

/// How many events one request for history asks for.
pub const PAGE_SIZE: usize = 20;

/// Where the sync engine of a client stands.
#[derive(Clone, Copy, Debug, PartialEq, Eq, Structural)]
pub enum SyncPhase {
    /// No sync is running.
    Idle,
    /// A sync was started and has not come back.
    Syncing,
    /// The last sync failed. Nothing is retried until the caller starts a
    /// sync again.
    Failed,
}

/// The events that one sync brought for one conversation, newest first.
#[derive(Debug, PartialEq, Eq)]
pub struct ConversationBatch {
    pub conversation_id: String,
    pub events: Vec<RawEvent>,
}

/// Mathematical value of a [`ConversationBatch`].
pub struct ConversationBatchView {
    pub conversation_id: Seq<char>,
    pub events: Seq<RawEventView>,
}

impl View for ConversationBatch {
    type V = ConversationBatchView;

    open spec fn view(&self) -> ConversationBatchView {
        ConversationBatchView {
            conversation_id: self.conversation_id@,
            events: raw_views(self.events@),
        }
    }
}

/// The values of the batches of a sync, in order.
pub open spec fn batch_views(batches: Seq<ConversationBatch>) -> Seq<ConversationBatchView> {
    batches.map_values(|b: ConversationBatch| b@)
}

/// What a provider answers to a sync: the token to continue from, and the
/// events since the token that was sent, by conversation.
#[derive(Debug, PartialEq, Eq)]
pub struct SyncResponse {
    pub next_token: String,
    pub batches: Vec<ConversationBatch>,
}

/// Mathematical value of a [`SyncResponse`].
pub struct SyncResponseView {
    pub next_token: Seq<char>,
    pub batches: Seq<ConversationBatchView>,
}

impl View for SyncResponse {
    type V = SyncResponseView;

    open spec fn view(&self) -> SyncResponseView {
        SyncResponseView { next_token: self.next_token@, batches: batch_views(self.batches@) }
    }
}

/// What a provider answers to a request for history: events older than the
/// cursor that was sent, newest first, and the cursor to continue from.
#[derive(Debug, PartialEq, Eq)]
pub struct HistoryPage {
    pub events: Vec<RawEvent>,
    pub next_cursor: Option<String>,
}

/// Mathematical value of a [`HistoryPage`].
pub struct HistoryPageView {
    pub events: Seq<RawEventView>,
    pub next_cursor: Option<Seq<char>>,
}

impl View for HistoryPage {
    type V = HistoryPageView;

    open spec fn view(&self) -> HistoryPageView {
        HistoryPageView { events: raw_views(self.events@), next_cursor: text_view(self.next_cursor) }
    }
}

/// A sync to perform: the token to send, or none for a first sync.
#[derive(Debug, PartialEq, Eq)]
pub struct SyncRequest {
    pub since: Option<String>,
}

/// A page of history to fetch. `conversation_id` is also the stamp by which
/// the answer is matched against the selection when it comes back.
#[derive(Debug, PartialEq, Eq)]
pub struct PageRequest {
    pub conversation_id: String,
    pub before: Option<String>,
    pub limit: usize,
}

/// What the pager decides when more history is asked for.
#[derive(Debug, PartialEq, Eq)]
pub enum PageDecision {
    /// Fetch this page and hand the answer to `finish_load_more`.
    Fetch(PageRequest),
    /// No conversation is selected.
    NothingSelected,
    /// A fetch for the selected conversation is still out.
    AlreadyLoading,
    /// The provider has no older events for the selected conversation.
    EndOfHistory,
}

/// An event to delete at the provider.
#[derive(Debug, PartialEq, Eq)]
pub struct DeleteRequest {
    pub conversation_id: String,
    pub event_id: String,
}

/// Mathematical value of a [`ClientState`].
pub struct ClientStateView {
    pub provider: ProviderKind,
    pub account_id: Seq<char>,
    pub sync_cursor: Option<Seq<char>>,
    pub phase: SyncPhase,
    pub selected: Option<Seq<char>>,
    pub pagination_cursor: Option<Seq<char>>,
    pub loading: bool,
    pub exhausted: bool,
    pub aggregator: AggregatorView,
}

/// The timeline and seen ids after the batches of a sync were read in order:
/// a batch of the selected conversation is appended, any other is passed
/// over.
pub open spec fn synced(
    state: AggregatorView,
    selected: Option<Seq<char>>,
    batches: Seq<ConversationBatchView>,
    account_id: Seq<char>,
) -> AggregatorView
    decreases batches.len(),
{
    if batches.len() == 0 {
        state
    } else {
        let before = synced(state, selected, batches.drop_last(), account_id);
        if selected == Some(batches.last().conversation_id) {
            fed(before, batches.last().events, MergeMode::Append, account_id)
        } else {
            before
        }
    }
}

/// The state after a sync that was started in `state` came back with
/// `response`.
pub open spec fn sync_applied(state: ClientStateView, response: SyncResponseView) -> ClientStateView {
    ClientStateView {
        sync_cursor: Some(response.next_token),
        phase: SyncPhase::Idle,
        aggregator: synced(state.aggregator, state.selected, response.batches, state.account_id),
        ..state
    }
}

/// The state after a sync that was started in `state` failed: only the phase
/// tells of it.
pub open spec fn sync_failed(state: ClientStateView) -> ClientStateView {
    ClientStateView { phase: SyncPhase::Failed, ..state }
}

/// Whether a page ends the history: it is empty and names no cursor to go on
/// from.
pub open spec fn ends_history(page: HistoryPageView) -> bool {
    page.events.len() == 0 && page.next_cursor is None
}

/// Whether the answer to a fetch that was issued for `conversation_id` still
/// has a place: that conversation is selected and a fetch for it is out.
pub open spec fn awaits_page(state: ClientStateView, conversation_id: Seq<char>) -> bool {
    state.loading && state.selected == Some(conversation_id)
}

/// The state after an awaited page of history arrived.
pub open spec fn page_applied(state: ClientStateView, page: HistoryPageView) -> ClientStateView {
    ClientStateView {
        pagination_cursor: page.next_cursor,
        loading: false,
        exhausted: ends_history(page),
        aggregator: fed(state.aggregator, page.events, MergeMode::Prepend, state.account_id),
        ..state
    }
}

/// The state after an awaited fetch failed: the pager is free again and
/// nothing else has changed.
pub open spec fn page_failed(state: ClientStateView) -> ClientStateView {
    ClientStateView { loading: false, ..state }
}

/// The state after `conversation_id` was selected and its first page arrived:
/// the timeline holds that page and nothing else, and only the ids of that
/// page count as seen.
pub open spec fn selected_with(
    state: ClientStateView,
    conversation_id: Seq<char>,
    page: HistoryPageView,
) -> ClientStateView {
    ClientStateView {
        selected: Some(conversation_id),
        pagination_cursor: page.next_cursor,
        loading: false,
        exhausted: ends_history(page),
        aggregator: fed(
            AggregatorView { timeline: Seq::empty(), seen: Set::empty() },
            page.events,
            MergeMode::Prepend,
            state.account_id,
        ),
        ..state
    }
}

/// What holds of the state of every client: no group of the timeline is
/// empty, and while no conversation is selected there is no timeline, no id
/// counts as seen, and the pager is at rest without a cursor.
pub open spec fn well_formed(state: ClientStateView) -> bool {
    &&& no_empty_group(state.aggregator.timeline)
    &&& state.selected is None ==> {
        &&& state.pagination_cursor is None
        &&& !state.loading
        &&& !state.exhausted
        &&& state.aggregator.timeline.len() == 0
        &&& state.aggregator.seen == Set::<Seq<char>>::empty()
    }
}

/// Everything that the library keeps for one logged-in account: the cursors,
/// the selected conversation and its timeline.
pub struct ClientState {
    provider: ProviderKind,
    account_id: String,
    sync_cursor: Option<String>,
    phase: SyncPhase,
    selected: Option<String>,
    pagination_cursor: Option<String>,
    loading: bool,
    exhausted: bool,
    aggregator: Aggregator,
}

impl View for ClientState {
    type V = ClientStateView;

    closed spec fn view(&self) -> ClientStateView {
        ClientStateView {
            provider: self.provider,
            account_id: self.account_id@,
            sync_cursor: text_view(self.sync_cursor),
            phase: self.phase,
            selected: text_view(self.selected),
            pagination_cursor: text_view(self.pagination_cursor),
            loading: self.loading,
            exhausted: self.exhausted,
            aggregator: self.aggregator@,
        }
    }
}

impl ClientState {
    #[verifier::type_invariant]
    spec fn settled(self) -> bool {
        well_formed(self@)
    }

    /// The state of a client whose session was just created (`sync_cursor` is
    /// `None`) or restored from the store (`sync_cursor` is what was saved).
    pub fn new(provider: ProviderKind, account_id: String, sync_cursor: Option<String>) -> (res:
        Self)
        ensures
            well_formed(res@),
            res@ == (ClientStateView {
                provider,
                account_id: account_id@,
                sync_cursor: text_view(sync_cursor),
                phase: SyncPhase::Idle,
                selected: None,
                pagination_cursor: None,
                loading: false,
                exhausted: false,
                aggregator: AggregatorView { timeline: Seq::empty(), seen: Set::empty() },
            }),
    {
        ClientState {
            provider,
            account_id,
            sync_cursor,
            phase: SyncPhase::Idle,
            selected: None,
            pagination_cursor: None,
            loading: false,
            exhausted: false,
            aggregator: Aggregator::new(),
        }
    }

    /// The provider of this client.
    pub fn provider(&self) -> (res: ProviderKind)
        ensures
            res == self@.provider,
    {
        self.provider
    }

    /// The account that this client is logged in as.
    pub fn account_id(&self) -> (res: &String)
        ensures
            res@ == self@.account_id,
    {
        &self.account_id
    }

    /// The token that the next sync continues from.
    pub fn sync_cursor(&self) -> (res: &Option<String>)
        ensures
            text_view(*res) == self@.sync_cursor,
    {
        &self.sync_cursor
    }

    /// Where the sync engine stands.
    pub fn phase(&self) -> (res: SyncPhase)
        ensures
            res == self@.phase,
    {
        self.phase
    }

    /// The conversation whose timeline is kept.
    pub fn selected_conversation(&self) -> (res: &Option<String>)
        ensures
            text_view(*res) == self@.selected,
    {
        &self.selected
    }

    /// The cursor that the next page of history is fetched before.
    pub fn pagination_cursor(&self) -> (res: &Option<String>)
        ensures
            text_view(*res) == self@.pagination_cursor,
    {
        &self.pagination_cursor
    }

    /// Whether a fetch of history is out.
    pub fn is_loading(&self) -> (res: bool)
        ensures
            res == self@.loading,
    {
        self.loading
    }

    /// Whether the provider has said that no older history is left.
    pub fn history_exhausted(&self) -> (res: bool)
        ensures
            res == self@.exhausted,
    {
        self.exhausted
    }

    /// Whether an event of this id has been read into the timeline of the
    /// selected conversation, or dropped from it for its kind.
    pub fn has_seen(&self, event_id: &str) -> (res: bool)
        ensures
            res == self@.aggregator.seen.contains(event_id@),
    {
        self.aggregator.has_seen(event_id)
    }

    /// The timeline of the selected conversation, oldest group first.
    pub fn event_groups(&self) -> (res: &Vec<EventGroup>)
        ensures
            group_views(res@) == self@.aggregator.timeline,
            well_formed(self@),
            forall|i: int| 0 <= i < res@.len() ==> (#[trigger] res@[i]).events@.len() > 0,
    {
        proof {
            use_type_invariant(self);
        }
        self.aggregator.groups()
    }

    /// A copy of the timeline for a reader that must not hold on to the state.
    pub fn timeline(&self) -> (res: Vec<EventGroup>)
        ensures
            group_views(res@) == self@.aggregator.timeline,
            well_formed(self@),
    {
        proof {
            use_type_invariant(self);
        }
        self.aggregator.snapshot()
    }

    /// How many events the timeline holds, or `usize::MAX` if they are more
    /// than that.
    pub fn event_count(&self) -> (count: usize)
        ensures
            count == (if event_total(self@.aggregator.timeline) <= usize::MAX {
                event_total(self@.aggregator.timeline)
            } else {
                usize::MAX as nat
            }),
    {
        self.aggregator.event_count()
    }

    /// The places in `batch` of the events that would enter the timeline if
    /// the batch were fed now, oldest event first: the ones whose sender is
    /// worth resolving before the batch is handed over.
    pub fn entering_places(&self, batch: &Vec<RawEvent>) -> (places: Vec<usize>)
        ensures
            places@.map_values(|place: usize| batch@.len() - 1 - place) == entering(
                self@.aggregator.seen,
                chronological(raw_views(batch@)),
            ),
            forall|k: int| 0 <= k < places@.len() ==> (#[trigger] places@[k]) < batch@.len(),
    {
        self.aggregator.entering_places(batch)
    }

    /// The key under which the session of this client is stored.
    pub fn storage_key(&self) -> (key: String)
        ensures
            key@ == key_text(self@.provider, self@.account_id),
    {
        storage_key(self.provider, self.account_id.as_str())
    }

    /// Starts a sync unless one is running. On `Some`, the caller performs
    /// the sync with the token given and reports back with `finish_sync`.
    pub fn begin_sync(&mut self) -> (res: Option<SyncRequest>)
        ensures
            old(self)@.phase == SyncPhase::Syncing ==> res is None && final(self)@ == old(self)@,
            old(self)@.phase != SyncPhase::Syncing ==> res is Some && text_view(res->Some_0.since)
                == old(self)@.sync_cursor && final(self)@ == (ClientStateView {
                phase: SyncPhase::Syncing,
                ..old(self)@
            }),
            well_formed(final(self)@),
    {
        proof {
            use_type_invariant(&*self);
        }
        match self.phase {
            SyncPhase::Syncing => None,
            _ => {
                self.phase = SyncPhase::Syncing;
                Some(SyncRequest { since: copy_text(&self.sync_cursor) })
            },
        }
    }

    /// Takes the answer to a sync. On success the token of the answer becomes
    /// the cursor and the events of the selected conversation are appended
    /// to its timeline; events of other conversations are passed over. On
    /// failure the cursor stays, so that the next sync asks for the same
    /// window again, and the error is handed back.
    pub fn finish_sync(&mut self, outcome: Result<SyncResponse, ClientError>) -> (res: Result<
        (),
        ClientError,
    >)
        ensures
            match outcome {
                Ok(response) => res == Ok::<(), ClientError>(()) && final(self)@ == sync_applied(
                    old(self)@,
                    response@,
                ),
                Err(error) => res == Err::<(), ClientError>(error) && final(self)@ == sync_failed(
                    old(self)@,
                ),
            },
            outcome is Err ==> final(self)@.sync_cursor == old(self)@.sync_cursor,
            well_formed(final(self)@),
    {
        proof {
            use_type_invariant(&*self);
        }
        match outcome {
            Err(error) => {
                self.phase = SyncPhase::Failed;
                Err(error)
            },
            Ok(response) => {
                let SyncResponse { next_token, batches } = response;
                let ghost start = self.aggregator@;
                let mut timeline = Aggregator::new();
                std::mem::swap(&mut timeline, &mut self.aggregator);
                let ghost all = batch_views(batches@);
                let mut batches = batches;
                let n = batches.len();
                let mut i: usize = 0;
                assert(all.take(0) =~= Seq::<ConversationBatchView>::empty());
                while i < n
                    invariant
                        i <= n,
                        n == batches@.len(),
                        n == all.len(),
                        forall|k: int| i <= k < n ==> (#[trigger] batches@[k])@ == all[k],
                        timeline@ == synced(
                            start,
                            old(self)@.selected,
                            all.take(i as int),
                            old(self)@.account_id,
                        ),
                        no_empty_group(timeline@.timeline),
                        old(self)@.selected is None ==> timeline@ == start,
                        well_formed(old(self)@),
                        start == old(self)@.aggregator,
                        self.phase == old(self).phase,
                        self.aggregator@ == (AggregatorView {
                            timeline: Seq::empty(),
                            seen: Set::empty(),
                        }),
                        self.selected == old(self).selected,
                        self.account_id == old(self).account_id,
                        self.provider == old(self).provider,
                        self.sync_cursor == old(self).sync_cursor,
                        self.pagination_cursor == old(self).pagination_cursor,
                        self.loading == old(self).loading,
                        self.exhausted == old(self).exhausted,
                    decreases n - i,
                {
                    assert(all.take(i + 1).drop_last() =~= all.take(i as int));
                    assert(all.take(i + 1).last() == all[i as int]);
                    if is_text(&self.selected, batches[i].conversation_id.as_str()) {
                        let mut events: Vec<RawEvent> = Vec::new();
                        std::mem::swap(&mut events, &mut batches[i].events);
                        timeline.feed(events, MergeMode::Append, self.account_id.as_str());
                    }
                    i += 1;
                }
                assert(all.take(n as int) =~= all);
                std::mem::swap(&mut timeline, &mut self.aggregator);
                self.sync_cursor = Some(next_token);
                self.phase = SyncPhase::Idle;
                Ok(())
            },
        }
    }

    /// Decides whether more history is fetched for the selected
    /// conversation. On `Fetch`, the caller fetches the page and reports back
    /// with `finish_load_more`; until then a second call is turned away.
    pub fn begin_load_more(&mut self) -> (res: PageDecision)
        ensures
            old(self)@.selected is None ==> res == PageDecision::NothingSelected && final(self)@
                == old(self)@,
            old(self)@.selected is Some && old(self)@.loading ==> res
                == PageDecision::AlreadyLoading && final(self)@ == old(self)@,
            old(self)@.selected is Some && !old(self)@.loading && old(self)@.exhausted ==> res
                == PageDecision::EndOfHistory && final(self)@ == old(self)@,
            old(self)@.selected is Some && !old(self)@.loading && !old(self)@.exhausted ==> {
                &&& res is Fetch
                &&& Some(res->Fetch_0.conversation_id@) == old(self)@.selected
                &&& text_view(res->Fetch_0.before) == old(self)@.pagination_cursor
                &&& res->Fetch_0.limit == PAGE_SIZE
                &&& final(self)@ == (ClientStateView { loading: true, ..old(self)@ })
            },
            well_formed(final(self)@),
    {
        proof {
            use_type_invariant(&*self);
        }
        match &self.selected {
            None => PageDecision::NothingSelected,
            Some(conversation_id) => {
                if self.loading {
                    PageDecision::AlreadyLoading
                } else if self.exhausted {
                    PageDecision::EndOfHistory
                } else {
                    let request = PageRequest {
                        conversation_id: conversation_id.clone(),
                        before: copy_text(&self.pagination_cursor),
                        limit: PAGE_SIZE,
                    };
                    self.loading = true;
                    PageDecision::Fetch(request)
                }
            },
        }
    }

    /// Takes the answer to a fetch of history that was issued for
    /// `conversation_id`. If that conversation is no longer selected, or no
    /// fetch for it is out, the answer is dropped and nothing changes. Else
    /// the pager is free again; a page is put in front of the timeline and
    /// its cursor becomes the pagination cursor, while an error changes
    /// nothing more and is handed back. `Ok(true)` says that a page was
    /// applied.
    pub fn finish_load_more(
        &mut self,
        conversation_id: &str,
        outcome: Result<HistoryPage, ClientError>,
    ) -> (res: Result<bool, ClientError>)
        ensures
            !awaits_page(old(self)@, conversation_id@) ==> res == Ok::<bool, ClientError>(false)
                && final(self)@ == old(self)@,
            awaits_page(old(self)@, conversation_id@) ==> match outcome {
                Ok(page) => res == Ok::<bool, ClientError>(true) && final(self)@ == page_applied(
                    old(self)@,
                    page@,
                ),
                Err(error) => res == Err::<bool, ClientError>(error) && final(self)@
                    == page_failed(old(self)@),
            },
            well_formed(final(self)@),
    {
        proof {
            use_type_invariant(&*self);
        }
        if !self.loading || !is_text(&self.selected, conversation_id) {
            return Ok(false);
        }
        self.loading = false;
        match outcome {
            Err(error) => Err(error),
            Ok(page) => {
                let HistoryPage { events, next_cursor } = page;
                self.exhausted = events.len() == 0 && next_cursor.is_none();
                let mut timeline = Aggregator::new();
                std::mem::swap(&mut timeline, &mut self.aggregator);
                timeline.feed(events, MergeMode::Prepend, self.account_id.as_str());
                std::mem::swap(&mut timeline, &mut self.aggregator);
                self.pagination_cursor = next_cursor;
                Ok(true)
            },
        }
    }

    /// The first page to fetch when `conversation_id` is to be selected: the
    /// newest events of that conversation.
    pub fn begin_select(&self, conversation_id: &str) -> (res: PageRequest)
        ensures
            res.conversation_id@ == conversation_id@,
            res.before is None,
            res.limit == PAGE_SIZE,
    {
        PageRequest { conversation_id: conversation_id.to_owned(), before: None, limit: PAGE_SIZE }
    }

    /// Takes the answer to the first fetch for `conversation_id` and, if it
    /// is a page, switches to that conversation: the old timeline, the seen
    /// ids and the pagination cursor are dropped, and the page becomes the
    /// timeline. If it is an error, the previous selection stays as it was in
    /// every respect and the error is handed back.
    pub fn finish_select(
        &mut self,
        conversation_id: String,
        outcome: Result<HistoryPage, ClientError>,
    ) -> (res: Result<(), ClientError>)
        ensures
            match outcome {
                Ok(page) => res == Ok::<(), ClientError>(()) && final(self)@ == selected_with(
                    old(self)@,
                    conversation_id@,
                    page@,
                ),
                Err(error) => res == Err::<(), ClientError>(error) && final(self)@ == old(self)@,
            },
            well_formed(final(self)@),
    {
        proof {
            use_type_invariant(&*self);
        }
        match outcome {
            Err(error) => Err(error),
            Ok(page) => {
                let HistoryPage { events, next_cursor } = page;
                let exhausted = events.len() == 0 && next_cursor.is_none();
                let mut timeline = Aggregator::new();
                timeline.feed(events, MergeMode::Prepend, self.account_id.as_str());
                self.selected = Some(conversation_id);
                self.aggregator = timeline;
                self.pagination_cursor = next_cursor;
                self.exhausted = exhausted;
                self.loading = false;
                Ok(())
            },
        }
    }

    /// The deletion to ask the provider for, or `None` while no conversation
    /// is selected. The timeline is not touched: the event leaves it when the
    /// conversation is loaded again.
    pub fn delete_request(&self, event_id: &str) -> (res: Option<DeleteRequest>)
        ensures
            self@.selected is None ==> res is None,
            self@.selected is Some ==> res is Some && Some(res->Some_0.conversation_id@)
                == self@.selected && res->Some_0.event_id@ == event_id@,
    {
        match &self.selected {
            None => None,
            Some(conversation_id) => Some(
                DeleteRequest {
                    conversation_id: conversation_id.clone(),
                    event_id: event_id.to_owned(),
                },
            ),
        }
    }
}

} // verus!
