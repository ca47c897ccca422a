use echat::aggregator::RawEvent;
use echat::clients::EventKind;
use echat::error::ClientError;
use echat::session::ProviderKind;
use echat::state::{
    ClientState, ConversationBatch, DeleteRequest, HistoryPage, PageDecision, PageRequest,
    SyncPhase, SyncRequest, SyncResponse, PAGE_SIZE,
};

fn raw(id: &str, timestamp: u64, sender: &str, text: &str) -> RawEvent {
    RawEvent {
        id: id.to_string(),
        timestamp,
        sender_id: sender.to_string(),
        kind: Some(EventKind::Message(text.to_string())),
        profile: None,
    }
}

fn client() -> ClientState {
    ClientState::new(ProviderKind::Matrix, "@me:example.org".to_string(), None)
}

fn page(events: Vec<RawEvent>, next: Option<&str>) -> HistoryPage {
    HistoryPage { events, next_cursor: next.map(|s| s.to_string()) }
}

fn batch(conversation: &str, events: Vec<RawEvent>) -> ConversationBatch {
    ConversationBatch { conversation_id: conversation.to_string(), events }
}

fn ids(state: &ClientState) -> Vec<String> {
    state.event_groups().iter().flat_map(|g| g.events.iter().map(|e| e.id.clone())).collect()
}

fn selected(conversation: &str, events: Vec<RawEvent>, next: Option<&str>) -> ClientState {
    let mut state = client();
    let result = state.finish_select(conversation.to_string(), Ok(page(events, next)));
    assert_eq!(result, Ok(()));
    state
}

#[test]
fn new_client_is_idle_and_empty() {
    let state = ClientState::new(
        ProviderKind::Telegram,
        "42".to_string(),
        Some("token-7".to_string()),
    );
    assert_eq!(state.provider(), ProviderKind::Telegram);
    assert_eq!(state.account_id(), "42");
    assert_eq!(state.sync_cursor(), &Some("token-7".to_string()));
    assert_eq!(state.phase(), SyncPhase::Idle);
    assert_eq!(state.selected_conversation(), &None);
    assert_eq!(state.pagination_cursor(), &None);
    assert!(!state.is_loading());
    assert!(!state.history_exhausted());
    assert!(state.event_groups().is_empty());
    assert!(state.timeline().is_empty());
    assert_eq!(state.storage_key(), "telegram-42");
}

#[test]
fn sync_round_trips_the_token() {
    let mut state = client();
    assert_eq!(state.begin_sync(), Some(SyncRequest { since: None }));
    assert_eq!(state.phase(), SyncPhase::Syncing);
    let response = SyncResponse { next_token: "s1".to_string(), batches: Vec::new() };
    assert_eq!(state.finish_sync(Ok(response)), Ok(()));
    assert_eq!(state.phase(), SyncPhase::Idle);
    assert_eq!(state.sync_cursor(), &Some("s1".to_string()));
    assert_eq!(state.begin_sync(), Some(SyncRequest { since: Some("s1".to_string()) }));
}

#[test]
fn second_sync_is_turned_away_while_one_runs() {
    let mut state = client();
    assert!(state.begin_sync().is_some());
    assert_eq!(state.begin_sync(), None);
    assert_eq!(state.phase(), SyncPhase::Syncing);
}

#[test]
fn failed_sync_leaves_the_cursor_untouched() {
    let mut state = ClientState::new(
        ProviderKind::Matrix,
        "@me:example.org".to_string(),
        Some("s0".to_string()),
    );
    state.finish_select("!room".to_string(), Ok(page(vec![raw("1", 1, "A", "a")], Some("older-a")))).unwrap();
    let before = state.timeline();
    assert!(state.begin_sync().is_some());
    assert_eq!(
        state.finish_sync(Err(ClientError::TransientNetworkError)),
        Err(ClientError::TransientNetworkError)
    );
    assert_eq!(state.sync_cursor(), &Some("s0".to_string()));
    assert_eq!(state.phase(), SyncPhase::Failed);
    assert_eq!(state.timeline(), before);
    assert_eq!(state.pagination_cursor(), &Some("older-a".to_string()));
    // Nothing is retried by itself, but the caller may start again, and then
    // the same window is asked for.
    assert_eq!(state.begin_sync(), Some(SyncRequest { since: Some("s0".to_string()) }));
}

#[test]
fn failed_first_sync_keeps_no_cursor() {
    let mut state = client();
    state.begin_sync();
    assert_eq!(state.finish_sync(Err(ClientError::SessionExpired)), Err(ClientError::SessionExpired));
    assert_eq!(state.sync_cursor(), &None);
}

#[test]
fn sync_appends_events_of_the_selected_conversation_only() {
    let mut state = selected("!room", vec![raw("1", 1, "A", "a")], Some("older-a"));
    state.begin_sync();
    let response = SyncResponse {
        next_token: "s1".to_string(),
        batches: vec![
            batch("!other", vec![raw("x", 9, "Z", "elsewhere")]),
            batch("!room", vec![raw("3", 3, "B", "c"), raw("2", 2, "A", "b")]),
            batch("!third", vec![raw("y", 9, "Z", "elsewhere")]),
        ],
    };
    assert_eq!(state.finish_sync(Ok(response)), Ok(()));
    assert_eq!(ids(&state), vec!["1", "2", "3"]);
    // The new event of A joined the group that A had at the tail.
    assert_eq!(state.event_groups().len(), 2);
    assert_eq!(state.event_groups()[0].events.len(), 2);
    assert!(!state.has_seen("x"));
    assert!(!state.has_seen("y"));
    assert!(state.has_seen("3"));
    assert_eq!(state.pagination_cursor(), &Some("older-a".to_string()));
}

#[test]
fn sync_without_selection_discards_events() {
    let mut state = client();
    state.begin_sync();
    let response = SyncResponse {
        next_token: "s1".to_string(),
        batches: vec![batch("!room", vec![raw("1", 1, "A", "a")])],
    };
    assert_eq!(state.finish_sync(Ok(response)), Ok(()));
    assert!(state.event_groups().is_empty());
    assert!(!state.has_seen("1"));
    assert_eq!(state.sync_cursor(), &Some("s1".to_string()));
}

#[test]
fn repeated_sync_window_is_absorbed() {
    let mut state = selected("!room", Vec::new(), None);
    let response = || SyncResponse {
        next_token: "s1".to_string(),
        batches: vec![
            batch("!room", vec![raw("2", 2, "A", "b"), raw("1", 1, "A", "a")]),
            batch("!room", vec![raw("3", 3, "B", "c")]),
        ],
    };
    state.begin_sync();
    state.finish_sync(Ok(response())).unwrap();
    let once = state.timeline();
    state.begin_sync();
    state.finish_sync(Ok(response())).unwrap();
    assert_eq!(state.timeline(), once);
    assert_eq!(ids(&state), vec!["1", "2", "3"]);
}

#[test]
fn selection_asks_for_the_newest_page() {
    let state = client();
    assert_eq!(
        state.begin_select("!room"),
        PageRequest { conversation_id: "!room".to_string(), before: None, limit: 20 }
    );
    assert_eq!(PAGE_SIZE, 20);
}

#[test]
fn selection_loads_the_first_page() {
    let state = selected("!room", vec![raw("2", 2, "B", "b"), raw("1", 1, "A", "a")], Some("older-a"));
    assert_eq!(state.selected_conversation(), &Some("!room".to_string()));
    assert_eq!(state.pagination_cursor(), &Some("older-a".to_string()));
    assert_eq!(ids(&state), vec!["1", "2"]);
    assert!(!state.history_exhausted());
    assert!(!state.is_loading());
}

#[test]
fn switching_conversations_resets_ids_and_cursor() {
    let mut state = selected("!x", vec![raw("7", 1, "A", "in x")], Some("px"));
    assert!(state.has_seen("7"));
    let result = state.finish_select("!y".to_string(), Ok(page(vec![raw("7", 5, "B", "in y")], None)));
    assert_eq!(result, Ok(()));
    assert_eq!(state.selected_conversation(), &Some("!y".to_string()));
    assert_eq!(state.pagination_cursor(), &None);
    // The id that was seen in x is read again in y.
    assert_eq!(state.event_groups().len(), 1);
    assert_eq!(state.event_groups()[0].user_id, "B");
    assert_eq!(state.event_groups()[0].events[0].id, "7");
    assert_eq!(state.event_groups()[0].events[0].timestamp, 5);
    assert_eq!(state.event_groups()[0].events[0].kind, EventKind::Message("in y".to_string()));
}

#[test]
fn switching_forgets_ids_that_the_new_page_lacks() {
    let mut state = selected("!x", vec![raw("7", 1, "A", "in x")], Some("px"));
    state.finish_select("!y".to_string(), Ok(page(vec![raw("8", 5, "B", "in y")], Some("py")))).unwrap();
    assert!(!state.has_seen("7"));
    assert!(state.has_seen("8"));
    assert_eq!(state.pagination_cursor(), &Some("py".to_string()));
}

#[test]
fn failed_selection_leaves_everything_as_it_was() {
    let mut state = selected("!x", vec![raw("7", 1, "A", "in x")], Some("px"));
    let before = state.timeline();
    let result = state.finish_select("!gone".to_string(), Err(ClientError::ConversationNotFound));
    assert_eq!(result, Err(ClientError::ConversationNotFound));
    assert_eq!(state.selected_conversation(), &Some("!x".to_string()));
    assert_eq!(state.pagination_cursor(), &Some("px".to_string()));
    assert_eq!(state.timeline(), before);
    assert!(state.has_seen("7"));
}

#[test]
fn selecting_the_same_conversation_again_is_safe() {
    let mut state = selected("!x", vec![raw("2", 2, "A", "b"), raw("1", 1, "A", "a")], Some("px"));
    let first = state.timeline();
    state
        .finish_select(
            "!x".to_string(),
            Ok(page(vec![raw("2", 2, "A", "b"), raw("1", 1, "A", "a")], Some("px"))),
        )
        .unwrap();
    assert_eq!(state.timeline(), first);
    assert_eq!(state.pagination_cursor(), &Some("px".to_string()));
}

#[test]
fn load_more_needs_a_selection() {
    let mut state = client();
    assert_eq!(state.begin_load_more(), PageDecision::NothingSelected);
    assert!(!state.is_loading());
}

#[test]
fn load_more_fetches_before_the_cursor() {
    let mut state = selected("!room", vec![raw("9", 9, "A", "i")], Some("older-a"));
    assert_eq!(
        state.begin_load_more(),
        PageDecision::Fetch(PageRequest {
            conversation_id: "!room".to_string(),
            before: Some("older-a".to_string()),
            limit: 20,
        })
    );
    assert!(state.is_loading());
    let result = state.finish_load_more(
        "!room",
        Ok(page(vec![raw("8", 8, "A", "h"), raw("7", 7, "B", "g")], Some("older-b"))),
    );
    assert_eq!(result, Ok(true));
    assert!(!state.is_loading());
    assert_eq!(state.pagination_cursor(), &Some("older-b".to_string()));
    assert_eq!(ids(&state), vec!["7", "8", "9"]);
    // Paged-in history never merges into the group that was the oldest.
    let senders: Vec<&str> = state.event_groups().iter().map(|g| g.user_id.as_str()).collect();
    assert_eq!(senders, vec!["B", "A", "A"]);
}

#[test]
fn second_load_more_is_turned_away_while_one_is_out() {
    let mut state = selected("!room", vec![raw("9", 9, "A", "i")], Some("older-a"));
    assert!(matches!(state.begin_load_more(), PageDecision::Fetch(_)));
    assert_eq!(state.begin_load_more(), PageDecision::AlreadyLoading);
    assert_eq!(state.pagination_cursor(), &Some("older-a".to_string()));
}

#[test]
fn failed_load_more_keeps_cursor_and_timeline() {
    let mut state = selected("!room", vec![raw("9", 9, "A", "i")], Some("older-a"));
    let before = state.timeline();
    state.begin_load_more();
    assert_eq!(
        state.finish_load_more("!room", Err(ClientError::TransientNetworkError)),
        Err(ClientError::TransientNetworkError)
    );
    assert_eq!(state.pagination_cursor(), &Some("older-a".to_string()));
    assert_eq!(state.timeline(), before);
    assert!(!state.is_loading());
    assert!(matches!(state.begin_load_more(), PageDecision::Fetch(_)));
}

#[test]
fn page_for_another_conversation_is_dropped() {
    let mut state = selected("!x", vec![raw("9", 9, "A", "i")], Some("px"));
    state.begin_load_more();
    state.finish_select("!y".to_string(), Ok(page(vec![raw("1", 1, "B", "a")], Some("py")))).unwrap();
    let before = state.timeline();
    // The answer to the fetch that was issued for x arrives late.
    let result = state.finish_load_more("!x", Ok(page(vec![raw("8", 8, "A", "h")], Some("px2"))));
    assert_eq!(result, Ok(false));
    assert_eq!(state.timeline(), before);
    assert_eq!(state.pagination_cursor(), &Some("py".to_string()));
    assert!(!state.has_seen("8"));
}

#[test]
fn unexpected_page_is_dropped() {
    let mut state = selected("!x", vec![raw("9", 9, "A", "i")], Some("px"));
    let result = state.finish_load_more("!x", Ok(page(vec![raw("8", 8, "A", "h")], Some("px2"))));
    assert_eq!(result, Ok(false));
    assert_eq!(ids(&state), vec!["9"]);
    assert_eq!(state.pagination_cursor(), &Some("px".to_string()));
    let failed = state.finish_load_more("!x", Err(ClientError::TransientNetworkError));
    assert_eq!(failed, Ok(false));
}

#[test]
fn empty_page_without_cursor_ends_the_history() {
    let mut state = selected("!room", vec![raw("9", 9, "A", "i")], Some("older-a"));
    state.begin_load_more();
    assert_eq!(state.finish_load_more("!room", Ok(page(Vec::new(), None))), Ok(true));
    assert!(state.history_exhausted());
    assert_eq!(state.begin_load_more(), PageDecision::EndOfHistory);
    assert_eq!(state.begin_load_more(), PageDecision::EndOfHistory);
    assert!(!state.is_loading());
    assert_eq!(ids(&state), vec!["9"]);
}

#[test]
fn empty_page_with_cursor_does_not_end_the_history() {
    let mut state = selected("!room", vec![raw("9", 9, "A", "i")], Some("older-a"));
    state.begin_load_more();
    assert_eq!(state.finish_load_more("!room", Ok(page(Vec::new(), Some("older-b")))), Ok(true));
    assert!(!state.history_exhausted());
    assert!(matches!(state.begin_load_more(), PageDecision::Fetch(_)));
}

#[test]
fn last_page_without_cursor_does_not_end_the_history_by_itself() {
    let mut state = selected("!room", vec![raw("9", 9, "A", "i")], Some("older-a"));
    state.begin_load_more();
    assert_eq!(state.finish_load_more("!room", Ok(page(vec![raw("8", 8, "A", "h")], None))), Ok(true));
    assert!(!state.history_exhausted());
    assert_eq!(state.pagination_cursor(), &None);
}

#[test]
fn selecting_an_empty_conversation_exhausts_it_at_once() {
    let mut state = selected("!empty", Vec::new(), None);
    assert!(state.history_exhausted());
    assert_eq!(state.begin_load_more(), PageDecision::EndOfHistory);
    // Another selection opens the pager again.
    state.finish_select("!room".to_string(), Ok(page(vec![raw("1", 1, "A", "a")], Some("p")))).unwrap();
    assert!(!state.history_exhausted());
    assert!(matches!(state.begin_load_more(), PageDecision::Fetch(_)));
}

#[test]
fn own_messages_are_recognised_by_the_account() {
    let state = selected(
        "!room",
        vec![raw("2", 2, "@me:example.org", "mine"), raw("1", 1, "@you:example.org", "yours")],
        None,
    );
    assert!(!state.event_groups()[0].from_self);
    assert!(state.event_groups()[1].from_self);
}

#[test]
fn delete_needs_a_selection() {
    let state = client();
    assert_eq!(state.delete_request("17"), None);
    let state = selected("!room", Vec::new(), None);
    assert_eq!(
        state.delete_request("17"),
        Some(DeleteRequest { conversation_id: "!room".to_string(), event_id: "17".to_string() })
    );
}

#[test]
fn storage_key_joins_provider_and_account() {
    assert_eq!(client().storage_key(), "matrix-@me:example.org");
}

#[test]
fn no_group_is_ever_empty() {
    let mut state = selected("!room", vec![raw("3", 3, "B", "c"), raw("2", 2, "A", "b")], Some("older-a"));
    state.begin_load_more();
    let mut hidden = raw("0", 0, "C", "");
    hidden.kind = None;
    state
        .finish_load_more("!room", Ok(page(vec![raw("1", 1, "A", "a"), hidden], None)))
        .unwrap();
    state.begin_sync();
    state
        .finish_sync(Ok(SyncResponse {
            next_token: "s".to_string(),
            batches: vec![batch("!room", vec![raw("4", 4, "B", "d"), raw("3", 3, "B", "c")])],
        }))
        .unwrap();
    assert_eq!(ids(&state), vec!["1", "2", "3", "4"]);
    assert_eq!(state.event_count(), 4);
    assert!(state.event_groups().iter().all(|g| !g.events.is_empty()));
    // The event of no shown kind opened no group of its own.
    assert!(state.event_groups().iter().all(|g| g.user_id != "C"));
    assert!(state.has_seen("0"));
}

#[test]
fn without_a_selection_there_is_no_timeline_and_no_cursor() {
    let mut state = client();
    state.begin_sync();
    state
        .finish_sync(Ok(SyncResponse {
            next_token: "s".to_string(),
            batches: vec![batch("!room", vec![raw("1", 1, "A", "a")])],
        }))
        .unwrap();
    assert_eq!(state.finish_load_more("!room", Ok(page(vec![raw("2", 2, "A", "b")], Some("x")))), Ok(false));
    assert_eq!(state.selected_conversation(), &None);
    assert_eq!(state.pagination_cursor(), &None);
    assert!(state.event_groups().is_empty());
    assert_eq!(state.event_count(), 0);
    assert!(!state.is_loading());
    assert!(!state.history_exhausted());
    assert_eq!(state.entering_places(&vec![raw("1", 1, "A", "a")]), vec![0]);
}
