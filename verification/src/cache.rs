//! The list of conversations that was fetched last.

use crate::clients::{chat_views, copy_chats, Chat, ChatView};
use crate::error::ClientError;
use crate::text::same_text;
use vstd::prelude::*;

verus! {

/// The position of the first conversation of `chats` that has the id `id`.
pub open spec fn first_with_id(chats: Seq<ChatView>, id: Seq<char>, at: int) -> bool {
    &&& 0 <= at < chats.len()
    &&& chats[at].id == id
    &&& forall|k: int| 0 <= k < at ==> (#[trigger] chats[k]).id != id
}

/// The conversations of the active client as the provider listed them last.
/// A new list replaces the old one as a whole; a list that could not be
/// fetched replaces nothing.
pub struct ConversationCache {
    chats: Vec<Chat>,
}

impl View for ConversationCache {
    type V = Seq<ChatView>;

    closed spec fn view(&self) -> Seq<ChatView> {
        chat_views(self.chats@)
    }
}

impl ConversationCache {
    /// A cache that holds no conversation.
    pub fn new() -> (res: Self)
        ensures
            res@ == Seq::<ChatView>::empty(),
    {
        let res = ConversationCache { chats: Vec::new() };
        assert(chat_views(res.chats@) =~= Seq::<ChatView>::empty());
        res
    }

    /// Takes the answer to a request for the list of conversations. A list
    /// becomes the content of the cache; an error leaves the content as it
    /// was and is handed back.
    pub fn refresh(&mut self, outcome: Result<Vec<Chat>, ClientError>) -> (res: Result<
        (),
        ClientError,
    >)
        ensures
            match outcome {
                Ok(list) => res == Ok::<(), ClientError>(()) && final(self)@ == chat_views(list@),
                Err(error) => res == Err::<(), ClientError>(error) && final(self)@ == old(self)@,
            },
    {
        match outcome {
            Ok(list) => {
                self.chats = list;
                Ok(())
            },
            Err(error) => Err(error),
        }
    }

    /// How many conversations the cache holds.
    pub fn len(&self) -> (res: usize)
        ensures
            res == self@.len(),
    {
        self.chats.len()
    }

    /// The cached conversations, in the order of the provider's list.
    pub fn chats(&self) -> (res: &Vec<Chat>)
        ensures
            chat_views(res@) == self@,
    {
        &self.chats
    }

    /// A copy of the list for a reader that must not hold on to the cache.
    pub fn snapshot(&self) -> (res: Vec<Chat>)
        ensures
            chat_views(res@) == self@,
    {
        copy_chats(&self.chats)
    }

    /// Where the conversation of the given id stands in the list: the first
    /// position that has it, or `None` if the list does not know the id.
    pub fn position(&self, id: &str) -> (res: Option<usize>)
        ensures
            match res {
                Some(at) => first_with_id(self@, id@, at as int),
                None => forall|k: int| 0 <= k < self@.len() ==> (#[trigger] self@[k]).id != id@,
            },
    {
        let mut i: usize = 0;
        while i < self.chats.len()
            invariant
                i <= self.chats@.len(),
                forall|k: int| 0 <= k < i ==> (#[trigger] chat_views(self.chats@)[k]).id != id@,
            decreases self.chats@.len() - i,
        {
            if same_text(self.chats[i].id.as_str(), id) {
                return Some(i);
            }
            i += 1;
        }
        None
    }
}

} // verus!
