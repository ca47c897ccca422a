//! The clients of the running program and the one among them that is shown.

use crate::error::ClientError;
use crate::session::key_text;
use crate::state::{selected_with, ClientState, ClientStateView, HistoryPage, PageRequest, PAGE_SIZE};
use vstd::prelude::*;

verus! {

/// Mathematical value of a [`ClientRegistry`]: the states of its clients in
/// the order in which they were registered, and the handle of the active one.
pub struct ClientRegistryView {
    pub clients: Seq<ClientStateView>,
    pub active: Option<usize>,
}

/// The values of a sequence of client states, in order.
pub open spec fn state_views(clients: Seq<ClientState>) -> Seq<ClientStateView> {
    clients.map_values(|c: ClientState| c@)
}

/// The storage keys of a sequence of clients, in order.
pub open spec fn keys_of(clients: Seq<ClientStateView>) -> Seq<Seq<char>> {
    clients.map_values(|c: ClientStateView| key_text(c.provider, c.account_id))
}

/// The clients that are logged in. A client is known by its handle, the
/// number that `register` gave it; handles are never reused or moved. While
/// there is a client, one of them is active.
pub struct ClientRegistry {
    clients: Vec<ClientState>,
    active: Option<usize>,
}

impl View for ClientRegistry {
    type V = ClientRegistryView;

    closed spec fn view(&self) -> ClientRegistryView {
        ClientRegistryView { clients: state_views(self.clients@), active: self.active }
    }
}

impl ClientRegistry {
    /// What holds of every registry: the active handle, if there is one, is
    /// the handle of a client, and there is one as soon as there is a client.
    #[verifier::type_invariant]
    spec fn consistent(self) -> bool {
        match self.active {
            Some(handle) => handle < self.clients@.len(),
            None => self.clients@.len() == 0,
        }
    }

    /// The same, said of the value: it holds of every registry.
    pub open spec fn valid(state: ClientRegistryView) -> bool {
        match state.active {
            Some(handle) => handle < state.clients.len(),
            None => state.clients.len() == 0,
        }
    }

    /// A registry without clients.
    pub fn new() -> (res: Self)
        ensures
            res@.clients == Seq::<ClientStateView>::empty(),
            res@.active is None,
    {
        let res = ClientRegistry { clients: Vec::new(), active: None };
        assert(state_views(res.clients@) =~= Seq::<ClientStateView>::empty());
        res
    }

    /// Adds a client and hands back its handle. The first client that is
    /// registered becomes the active one; a later one leaves the active
    /// client as it is.
    pub fn register(&mut self, client: ClientState) -> (handle: usize)
        ensures
            handle == old(self)@.clients.len(),
            final(self)@.clients == old(self)@.clients.push(client@),
            final(self)@.active == (match old(self)@.active {
                Some(active) => Some(active),
                None => Some(handle),
            }),
    {
        proof {
            use_type_invariant(&*self);
        }
        let mut taken = ClientRegistry::new();
        std::mem::swap(self, &mut taken);
        let ClientRegistry { clients, active } = taken;
        let mut clients = clients;
        let ghost before = clients@;
        let handle = clients.len();
        let active = match active {
            Some(active) => Some(active),
            None => Some(handle),
        };
        clients.push(client);
        assert(state_views(clients@) =~= state_views(before).push(client@));
        *self = ClientRegistry { clients, active };
        handle
    }

    /// How many clients are registered.
    pub fn len(&self) -> (res: usize)
        ensures
            res == self@.clients.len(),
    {
        self.clients.len()
    }

    /// Whether no client is registered, so that the user has to log in.
    pub fn is_empty(&self) -> (res: bool)
        ensures
            res == (self@.clients.len() == 0),
    {
        self.clients.len() == 0
    }

    /// The handle of the active client. It is `None` only while no client is
    /// registered, and it is always the handle of a client.
    pub fn active(&self) -> (res: Option<usize>)
        ensures
            res == self@.active,
            Self::valid(self@),
    {
        proof {
            use_type_invariant(self);
        }
        self.active
    }

    /// Makes the client of `handle` the active one. An unknown handle
    /// changes nothing and gives `false`.
    pub fn activate(&mut self, handle: usize) -> (res: bool)
        ensures
            res == (handle < old(self)@.clients.len()),
            final(self)@.clients == old(self)@.clients,
            final(self)@.active == (if res {
                Some(handle)
            } else {
                old(self)@.active
            }),
    {
        if handle < self.clients.len() {
            self.active = Some(handle);
            true
        } else {
            false
        }
    }

    /// The client of `handle`, if there is one.
    pub fn client(&self, handle: usize) -> (res: Option<&ClientState>)
        ensures
            handle >= self@.clients.len() ==> res is None,
            handle < self@.clients.len() ==> res is Some && res->Some_0@
                == self@.clients[handle as int],
    {
        if handle < self.clients.len() {
            Some(&self.clients[handle])
        } else {
            None
        }
    }

    /// The active client, if a client is registered.
    pub fn active_client(&self) -> (res: Option<&ClientState>)
        ensures
            match self@.active {
                Some(handle) => handle < self@.clients.len() && res is Some && res->Some_0@
                    == self@.clients[handle as int],
                None => res is None,
            },
    {
        proof {
            use_type_invariant(self);
        }
        match self.active {
            Some(handle) => Some(&self.clients[handle]),
            None => None,
        }
    }

    /// The client of `handle` for changing. Whatever the caller does to it is
    /// done to that client and to nothing else in the registry.
    pub fn client_mut(&mut self, handle: usize) -> (res: Option<&mut ClientState>)
        ensures
            handle >= old(self)@.clients.len() ==> res is None && final(self)@ == old(self)@,
            handle < old(self)@.clients.len() ==> res is Some && (*res->Some_0)@ == old(
                self,
            )@.clients[handle as int] && final(self)@ == (ClientRegistryView {
                clients: old(self)@.clients.update(handle as int, (*final(res->Some_0))@),
                ..old(self)@
            }),
    {
        proof {
            use_type_invariant(&*self);
        }
        if handle < self.clients.len() {
            proof {
                let before = self.clients@;
                assert forall|c: ClientState| #[trigger]
                    state_views(before.update(handle as int, c)) == state_views(before).update(
                        handle as int,
                        c@,
                    ) by {
                    assert(state_views(before.update(handle as int, c)) =~= state_views(
                        before,
                    ).update(handle as int, c@));
                }
            }
            let client = &mut self.clients[handle];
            Some(client)
        } else {
            None
        }
    }

    /// The first page to fetch when the client of `handle` is to switch to
    /// `conversation_id`, or `None` for an unknown handle.
    pub fn begin_select(&self, handle: usize, conversation_id: &str) -> (res: Option<PageRequest>)
        ensures
            handle >= self@.clients.len() ==> res is None,
            handle < self@.clients.len() ==> res is Some && res->Some_0.conversation_id@
                == conversation_id@ && res->Some_0.before is None && res->Some_0.limit
                == PAGE_SIZE,
    {
        if handle < self.clients.len() {
            Some(self.clients[handle].begin_select(conversation_id))
        } else {
            None
        }
    }

    /// Takes the answer to the first fetch for `conversation_id` on behalf of
    /// the client of `handle`. A page switches that client to the
    /// conversation; an error leaves it, and every other client, as it was.
    /// `None` says that the handle is unknown, and then nothing changes
    /// either.
    pub fn finish_select(
        &mut self,
        handle: usize,
        conversation_id: String,
        outcome: Result<HistoryPage, ClientError>,
    ) -> (res: Option<Result<(), ClientError>>)
        ensures
            final(self)@.active == old(self)@.active,
            handle >= old(self)@.clients.len() ==> res is None && final(self)@ == old(self)@,
            handle < old(self)@.clients.len() ==> match outcome {
                Ok(page) => res == Some(Ok::<(), ClientError>(())) && final(self)@.clients == old(
                    self,
                )@.clients.update(
                    handle as int,
                    selected_with(old(self)@.clients[handle as int], conversation_id@, page@),
                ),
                Err(error) => res == Some(Err::<(), ClientError>(error)) && final(self)@ == old(
                    self,
                )@,
            },
    {
        proof {
            use_type_invariant(&*self);
        }
        if handle < self.clients.len() {
            let ghost before = self.clients@;
            let res = self.clients[handle].finish_select(conversation_id, outcome);
            proof {
                assert(state_views(self.clients@) =~= state_views(before).update(
                    handle as int,
                    self.clients@[handle as int]@,
                ));
                if res is Err {
                    assert(state_views(self.clients@) =~= state_views(before));
                }
            }
            Some(res)
        } else {
            None
        }
    }

    /// The storage keys of all clients, in the order of their handles: what
    /// has to be written down so that the clients can be restored.
    pub fn storage_keys(&self) -> (keys: Vec<String>)
        ensures
            keys@.map_values(|k: String| k@) == keys_of(self@.clients),
    {
        let mut keys: Vec<String> = Vec::new();
        let mut i: usize = 0;
        while i < self.clients.len()
            invariant
                i <= self.clients@.len(),
                keys@.len() == i,
                forall|k: int|
                    0 <= k < i ==> (#[trigger] keys@[k])@ == key_text(
                        self.clients@[k]@.provider,
                        self.clients@[k]@.account_id,
                    ),
            decreases self.clients@.len() - i,
        {
            keys.push(self.clients[i].storage_key());
            i += 1;
        }
        assert(keys@.map_values(|k: String| k@) =~= keys_of(self@.clients));
        keys
    }
}

} // verus!
