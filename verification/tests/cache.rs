use echat::cache::ConversationCache;
use echat::clients::Chat;
use echat::error::ClientError;
use std::sync::Arc;

fn chat(id: &str, name: Option<&str>) -> Chat {
    Chat { id: id.to_string(), name: name.map(|n| n.to_string()), avatar: None }
}

#[test]
fn new_cache_is_empty() {
    let cache = ConversationCache::new();
    assert_eq!(cache.len(), 0);
    assert!(cache.chats().is_empty());
    assert_eq!(cache.position("a"), None);
}

#[test]
fn refresh_replaces_the_whole_list() {
    let mut cache = ConversationCache::new();
    assert_eq!(cache.refresh(Ok(vec![chat("a", Some("A")), chat("b", None)])), Ok(()));
    assert_eq!(cache.len(), 2);
    assert_eq!(cache.refresh(Ok(vec![chat("c", Some("C"))])), Ok(()));
    assert_eq!(cache.chats(), &vec![chat("c", Some("C"))]);
    assert_eq!(cache.refresh(Ok(Vec::new())), Ok(()));
    assert!(cache.chats().is_empty());
}

#[test]
fn failed_refresh_keeps_the_list() {
    let mut cache = ConversationCache::new();
    let picture: Arc<[u8]> = Arc::from(vec![1u8, 2]);
    let list = vec![
        Chat { id: "a".to_string(), name: Some("A".to_string()), avatar: Some(picture) },
        chat("b", None),
    ];
    cache.refresh(Ok(list.clone())).unwrap();
    assert_eq!(
        cache.refresh(Err(ClientError::TransientNetworkError)),
        Err(ClientError::TransientNetworkError)
    );
    assert_eq!(cache.chats(), &list);
    assert_eq!(cache.snapshot(), list);
    assert_eq!(cache.len(), 2);
}

#[test]
fn position_finds_the_first_of_an_id() {
    let mut cache = ConversationCache::new();
    cache
        .refresh(Ok(vec![chat("a", None), chat("b", Some("first")), chat("b", Some("second"))]))
        .unwrap();
    assert_eq!(cache.position("a"), Some(0));
    assert_eq!(cache.position("b"), Some(1));
    assert_eq!(cache.position("c"), None);
    assert_eq!(cache.position(""), None);
}

#[test]
fn title_falls_back_for_unnamed_conversations() {
    assert_eq!(chat("a", Some("Family")).title(), "Family");
    assert_eq!(chat("a", Some("")).title(), "");
    assert_eq!(chat("a", None).title(), "Unnamed Chat");
}

#[test]
fn chat_avatar_names_are_per_conversation() {
    assert_eq!(chat("!room:x", None).avatar_uri(), "chat-avatar-!room:x");
}
