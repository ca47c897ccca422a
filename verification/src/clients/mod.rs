//! The display-ready data that every provider adapter produces: conversations,
//! events, and runs of events from one sender.

use std::sync::Arc;
use vstd::prelude::*;
use vstd::string::StringExecFns;

pub mod matrix;
pub mod telegram;

verus! {

/// What an event carries. Raw events of any other kind never become an
/// `Event`; they are dropped while the timeline is built.
#[derive(Debug, PartialEq, Eq)]
pub enum EventKind {
    Message(String),
}

/// Mathematical value of an [`EventKind`].
pub enum EventKindView {
    Message(Seq<char>),
}

impl View for EventKind {
    type V = EventKindView;

    open spec fn view(&self) -> EventKindView {
        match self {
            EventKind::Message(text) => EventKindView::Message(text@),
        }
    }
}

impl Clone for EventKind {
    fn clone(&self) -> (res: Self)
        ensures
            res@ == self@,
    {
        match self {
            EventKind::Message(text) => EventKind::Message(text.clone()),
        }
    }
}

/// One entry of a conversation. `id` is unique within its conversation and
/// `timestamp` counts seconds since the epoch, as the provider reported it.
#[derive(Debug, PartialEq, Eq)]
pub struct Event {
    pub id: String,
    pub timestamp: u64,
    pub kind: EventKind,
}

/// Mathematical value of an [`Event`].
pub struct EventView {
    pub id: Seq<char>,
    pub timestamp: u64,
    pub kind: EventKindView,
}

impl View for Event {
    type V = EventView;

    open spec fn view(&self) -> EventView {
        EventView { id: self.id@, timestamp: self.timestamp, kind: self.kind@ }
    }
}

impl Clone for Event {
    fn clone(&self) -> (res: Self)
        ensures
            res@ == self@,
    {
        Event { id: self.id.clone(), timestamp: self.timestamp, kind: self.kind.clone() }
    }
}

/// The bytes behind an optional shared image.
pub open spec fn image_view(image: Option<Arc<[u8]>>) -> Option<Seq<u8>> {
    match image {
        Some(bytes) => Some(bytes@),
        None => None,
    }
}

/// The characters behind an optional string.
pub open spec fn text_view(text: Option<String>) -> Option<Seq<char>> {
    match text {
        Some(s) => Some(s@),
        None => None,
    }
}

/// Shares an optional image without copying its bytes.
pub fn share_image(image: &Option<Arc<[u8]>>) -> (res: Option<Arc<[u8]>>)
    ensures
        image_view(res) == image_view(*image),
{
    match image {
        Some(bytes) => Some(bytes.clone()),
        None => None,
    }
}

/// Copies an optional string.
pub fn copy_text(text: &Option<String>) -> (res: Option<String>)
    ensures
        text_view(res) == text_view(*text),
{
    match text {
        Some(s) => Some(s.clone()),
        None => None,
    }
}

/// The values of a sequence of events, in order.
pub open spec fn event_views(events: Seq<Event>) -> Seq<EventView> {
    events.map_values(|e: Event| e@)
}

/// Copies a list of events.
pub fn copy_events(events: &Vec<Event>) -> (res: Vec<Event>)
    ensures
        event_views(res@) == event_views(events@),
{
    let mut out: Vec<Event> = Vec::new();
    let mut i: usize = 0;
    while i < events.len()
        invariant
            i <= events.len(),
            out@.len() == i,
            forall|k: int| 0 <= k < i ==> out@[k]@ == events@[k]@,
        decreases events.len() - i,
    {
        out.push(events[i].clone());
        i += 1;
    }
    assert(event_views(out@) =~= event_views(events@));
    out
}

/// A run of consecutive events from one sender: the unit that is put on
/// screen. `events` is chronological, oldest first.
#[derive(Debug, PartialEq, Eq)]
pub struct EventGroup {
    pub user_id: String,
    pub display_name: String,
    pub avatar: Option<Arc<[u8]>>,
    pub events: Vec<Event>,
    pub from_self: bool,
}

/// Mathematical value of an [`EventGroup`].
pub struct EventGroupView {
    pub user_id: Seq<char>,
    pub display_name: Seq<char>,
    pub avatar: Option<Seq<u8>>,
    pub events: Seq<EventView>,
    pub from_self: bool,
}

impl View for EventGroup {
    type V = EventGroupView;

    open spec fn view(&self) -> EventGroupView {
        EventGroupView {
            user_id: self.user_id@,
            display_name: self.display_name@,
            avatar: image_view(self.avatar),
            events: event_views(self.events@),
            from_self: self.from_self,
        }
    }
}

impl Clone for EventGroup {
    fn clone(&self) -> (res: Self)
        ensures
            res@ == self@,
    {
        EventGroup {
            user_id: self.user_id.clone(),
            display_name: self.display_name.clone(),
            avatar: share_image(&self.avatar),
            events: copy_events(&self.events),
            from_self: self.from_self,
        }
    }
}

/// The name under which the picture of a sender is kept by whoever draws it.
pub open spec fn sender_avatar_name(user_id: Seq<char>) -> Seq<char> {
    "user-avatar-"@ + user_id
}

impl EventGroup {
    /// The name under which the picture of this group's sender is kept by
    /// whoever draws it: one name for one sender, whatever the group.
    pub fn avatar_uri(&self) -> (uri: String)
        ensures
            uri@ == sender_avatar_name(self@.user_id),
    {
        let mut uri = "user-avatar-".to_owned();
        uri.append(self.user_id.as_str());
        uri
    }
}

/// The values of a sequence of groups, in order.
pub open spec fn group_views(groups: Seq<EventGroup>) -> Seq<EventGroupView> {
    groups.map_values(|g: EventGroup| g@)
}

/// Copies a list of groups; images are shared, everything else is copied.
pub fn copy_groups(groups: &Vec<EventGroup>) -> (res: Vec<EventGroup>)
    ensures
        group_views(res@) == group_views(groups@),
{
    let mut out: Vec<EventGroup> = Vec::new();
    let mut i: usize = 0;
    while i < groups.len()
        invariant
            i <= groups.len(),
            out@.len() == i,
            forall|k: int| 0 <= k < i ==> out@[k]@ == groups@[k]@,
        decreases groups.len() - i,
    {
        out.push(groups[i].clone());
        i += 1;
    }
    assert(group_views(out@) =~= group_views(groups@));
    out
}

/// Summary of one conversation, as the provider lists it.
#[derive(Debug, PartialEq, Eq)]
pub struct Chat {
    pub id: String,
    pub name: Option<String>,
    pub avatar: Option<Arc<[u8]>>,
}

/// Mathematical value of a [`Chat`].
pub struct ChatView {
    pub id: Seq<char>,
    pub name: Option<Seq<char>>,
    pub avatar: Option<Seq<u8>>,
}

impl View for Chat {
    type V = ChatView;

    open spec fn view(&self) -> ChatView {
        ChatView { id: self.id@, name: text_view(self.name), avatar: image_view(self.avatar) }
    }
}

impl Clone for Chat {
    fn clone(&self) -> (res: Self)
        ensures
            res@ == self@,
    {
        Chat {
            id: self.id.clone(),
            name: copy_text(&self.name),
            avatar: share_image(&self.avatar),
        }
    }
}

/// The title shown for a conversation that has no name.
pub open spec fn unnamed_title() -> Seq<char> {
    "Unnamed Chat"@
}

/// The title shown for a conversation: its name, if it has one.
pub open spec fn title_of(chat: ChatView) -> Seq<char> {
    match chat.name {
        Some(name) => name,
        None => unnamed_title(),
    }
}

/// The name under which the picture of a conversation is kept by whoever
/// draws it.
pub open spec fn chat_avatar_name(id: Seq<char>) -> Seq<char> {
    "chat-avatar-"@ + id
}

impl Chat {
    /// The title shown for this conversation.
    pub fn title(&self) -> (title: String)
        ensures
            title@ == title_of(self@),
    {
        match &self.name {
            Some(name) => name.clone(),
            None => "Unnamed Chat".to_owned(),
        }
    }

    /// The name under which the picture of this conversation is kept by
    /// whoever draws it.
    pub fn avatar_uri(&self) -> (uri: String)
        ensures
            uri@ == chat_avatar_name(self@.id),
    {
        let mut uri = "chat-avatar-".to_owned();
        uri.append(self.id.as_str());
        uri
    }
}

/// The values of a sequence of conversation summaries, in order.
pub open spec fn chat_views(chats: Seq<Chat>) -> Seq<ChatView> {
    chats.map_values(|c: Chat| c@)
}

/// Copies a list of conversation summaries.
pub fn copy_chats(chats: &Vec<Chat>) -> (res: Vec<Chat>)
    ensures
        chat_views(res@) == chat_views(chats@),
{
    let mut out: Vec<Chat> = Vec::new();
    let mut i: usize = 0;
    while i < chats.len()
        invariant
            i <= chats.len(),
            out@.len() == i,
            forall|k: int| 0 <= k < i ==> out@[k]@ == chats@[k]@,
        decreases chats.len() - i,
    {
        out.push(chats[i].clone());
        i += 1;
    }
    assert(chat_views(out@) =~= chat_views(chats@));
    out
}

} // verus!
