//! What the Telegram adapter keeps and decides outside of the network: the
//! local part of a session, the credentials of the application, the state of
//! the login form, and how a message becomes a raw event.

use crate::aggregator::{RawEvent, RawEventView, SenderProfile, SenderProfileView};
use crate::clients::{text_view, EventKind, EventKindView};
use crate::message::{signed_seconds, unsigned_timestamp};
use crate::text::{decimal_i32, parse_i32};
use vstd::prelude::*;
use vstd::string::StringExecFns;

verus! {

/// The local part of a Telegram session: the credentials of the application
/// and the file that holds the session.
#[derive(Debug, PartialEq, Eq)]
pub struct ClientSession {
    api_id: i32,
    api_hash: String,
    session_path: String,
}

/// Mathematical value of a [`ClientSession`].
pub struct ClientSessionView {
    pub api_id: i32,
    pub api_hash: Seq<char>,
    pub session_path: Seq<char>,
}

impl View for ClientSession {
    type V = ClientSessionView;

    closed spec fn view(&self) -> ClientSessionView {
        ClientSessionView {
            api_id: self.api_id,
            api_hash: self.api_hash@,
            session_path: self.session_path@,
        }
    }
}

impl Clone for ClientSession {
    fn clone(&self) -> (res: Self)
        ensures
            res@ == self@,
    {
        ClientSession {
            api_id: self.api_id,
            api_hash: self.api_hash.clone(),
            session_path: self.session_path.clone(),
        }
    }
}

impl ClientSession {
    /// The session that these parts make up.
    pub fn new(api_id: i32, api_hash: String, session_path: String) -> (res: Self)
        ensures
            res@ == (ClientSessionView {
                api_id,
                api_hash: api_hash@,
                session_path: session_path@,
            }),
    {
        ClientSession { api_id, api_hash, session_path }
    }

    /// The id of the application.
    pub fn api_id(&self) -> (res: i32)
        ensures
            res == self@.api_id,
    {
        self.api_id
    }

    /// The hash of the application.
    pub fn api_hash(&self) -> (res: &String)
        ensures
            res@ == self@.api_hash,
    {
        &self.api_hash
    }

    /// The file that holds the session.
    pub fn session_path(&self) -> (res: &String)
        ensures
            res@ == self@.session_path,
    {
        &self.session_path
    }
}

/// The credentials of the application, as the provider issued them.
#[derive(Debug, PartialEq, Eq)]
pub struct Credentials {
    pub api_id: i32,
    pub api_hash: String,
}

/// What is wrong with the credentials that the environment offers.
#[derive(Clone, Copy, Debug, PartialEq, Eq, Structural)]
pub enum CredentialsError {
    /// `API_ID` is not set.
    IdMissing,
    /// `API_ID` is set, but not to a number.
    IdNotANumber,
    /// `API_HASH` is not set.
    HashMissing,
}

/// What is wrong with the two settings, if anything. The id is looked at
/// first, so a bad id hides a missing hash.
pub open spec fn credentials_fault(api_id: Option<Seq<char>>, api_hash: Option<Seq<char>>) -> Option<
    CredentialsError,
> {
    match api_id {
        None => Some(CredentialsError::IdMissing),
        Some(id) => if decimal_i32(id) is None {
            Some(CredentialsError::IdNotANumber)
        } else if api_hash is None {
            Some(CredentialsError::HashMissing)
        } else {
            None
        },
    }
}

/// What the form says about a fault in the credentials.
pub open spec fn fault_text(fault: CredentialsError) -> Seq<char> {
    match fault {
        CredentialsError::IdMissing => "API_ID environment variable not set"@,
        CredentialsError::IdNotANumber => "API_ID environment variable must be a valid number"@,
        CredentialsError::HashMissing => "API_HASH environment variable not set"@,
    }
}

impl CredentialsError {
    /// What the form says about this fault.
    pub fn message(&self) -> (text: String)
        ensures
            text@ == fault_text(*self),
    {
        match self {
            CredentialsError::IdMissing => "API_ID environment variable not set".to_owned(),
            CredentialsError::IdNotANumber => {
                "API_ID environment variable must be a valid number".to_owned()
            },
            CredentialsError::HashMissing => "API_HASH environment variable not set".to_owned(),
        }
    }
}

/// Reads the credentials from the values of the settings `API_ID` and
/// `API_HASH`, each `None` where the setting is missing.
pub fn read_credentials(api_id: Option<String>, api_hash: Option<String>) -> (res: Result<
    Credentials,
    CredentialsError,
>)
    ensures
        match credentials_fault(text_view(api_id), text_view(api_hash)) {
            Some(fault) => res == Err::<Credentials, CredentialsError>(fault),
            None => res is Ok && Some(res->Ok_0.api_id) == decimal_i32(api_id->Some_0@)
                && res->Ok_0.api_hash@ == api_hash->Some_0@,
        },
{
    let id = match api_id {
        None => {
            return Err(CredentialsError::IdMissing);
        },
        Some(text) => match parse_i32(text.as_str()) {
            None => {
                return Err(CredentialsError::IdNotANumber);
            },
            Some(id) => id,
        },
    };
    match api_hash {
        None => Err(CredentialsError::HashMissing),
        Some(hash) => Ok(Credentials { api_id: id, api_hash: hash }),
    }
}

/// What the form says after a login that failed for `reason`.
pub open spec fn failure_text(reason: Seq<char>) -> Seq<char> {
    "Login failed: "@ + reason
}

/// The state of the Telegram login form.
pub struct Login {
    phone: String,
    api_id: String,
    api_hash: String,
    error_message: Option<String>,
}

/// Mathematical value of a [`Login`].
pub struct LoginView {
    pub phone: Seq<char>,
    pub api_id: Seq<char>,
    pub api_hash: Seq<char>,
    pub error_message: Option<Seq<char>>,
}

impl View for Login {
    type V = LoginView;

    closed spec fn view(&self) -> LoginView {
        LoginView {
            phone: self.phone@,
            api_id: self.api_id@,
            api_hash: self.api_hash@,
            error_message: text_view(self.error_message),
        }
    }
}

impl Default for Login {
    fn default() -> (res: Self)
        ensures
            res@ == (LoginView {
                phone: Seq::empty(),
                api_id: Seq::empty(),
                api_hash: Seq::empty(),
                error_message: None,
            }),
    {
        Login {
            phone: String::new(),
            api_id: String::new(),
            api_hash: String::new(),
            error_message: None,
        }
    }
}

impl Login {
    /// The phone number as typed.
    pub fn phone(&self) -> (res: &String)
        ensures
            res@ == self@.phone,
    {
        &self.phone
    }

    /// What the form has to say about the last login, if it failed.
    pub fn error_message(&self) -> (res: &Option<String>)
        ensures
            text_view(*res) == self@.error_message,
    {
        &self.error_message
    }

    /// Takes the phone number that the user typed.
    pub fn set_phone(&mut self, phone: String)
        ensures
            final(self)@ == (LoginView { phone: phone@, ..old(self)@ }),
    {
        self.phone = phone;
    }

    /// Reads the credentials for a login from the values of the settings
    /// `API_ID` and `API_HASH`. A fault is put on the form and nothing is
    /// handed back; what the form said before stays where there is none.
    pub fn credentials(&mut self, api_id: Option<String>, api_hash: Option<String>) -> (res: Option<
        Credentials,
    >)
        ensures
            match credentials_fault(text_view(api_id), text_view(api_hash)) {
                Some(fault) => res is None && final(self)@ == (LoginView {
                    error_message: Some(fault_text(fault)),
                    ..old(self)@
                }),
                None => res is Some && Some(res->Some_0.api_id) == decimal_i32(api_id->Some_0@)
                    && res->Some_0.api_hash@ == api_hash->Some_0@ && final(self)@ == old(self)@,
            },
    {
        match read_credentials(api_id, api_hash) {
            Ok(found) => Some(found),
            Err(fault) => {
                self.error_message = Some(fault.message());
                None
            },
        }
    }

    /// Notes that the login went through: the form has nothing to complain
    /// about any more.
    pub fn login_succeeded(&mut self)
        ensures
            final(self)@ == (LoginView { error_message: None, ..old(self)@ }),
    {
        self.error_message = None;
    }

    /// Notes that the login failed, and why.
    pub fn login_failed(&mut self, reason: &str)
        ensures
            final(self)@ == (LoginView {
                error_message: Some(failure_text(reason@)),
                ..old(self)@
            }),
    {
        let mut text = "Login failed: ".to_owned();
        text.append(reason);
        self.error_message = Some(text);
    }
}

/// Who sent a message.
#[derive(Debug, PartialEq, Eq)]
pub enum Sender {
    /// The account that is logged in.
    Me,
    /// Somebody else, with the name that the provider shows for them.
    Other { id: String, name: String },
}

/// Mathematical value of a [`Sender`].
pub enum SenderView {
    Me,
    Other { id: Seq<char>, name: Seq<char> },
}

impl View for Sender {
    type V = SenderView;

    open spec fn view(&self) -> SenderView {
        match self {
            Sender::Me => SenderView::Me,
            Sender::Other { id, name } => SenderView::Other { id: id@, name: name@ },
        }
    }
}

/// The name under which our own messages are shown.
pub open spec fn own_name() -> Seq<char> {
    "You"@
}

/// The raw event that a text message stands for: our own messages are sent by
/// the account itself and shown under a fixed name, anybody else's under the
/// name that came with the message. No message comes with an avatar.
pub open spec fn message_view(
    id: Seq<char>,
    date: i64,
    text: Seq<char>,
    sender: SenderView,
    self_id: Seq<char>,
) -> RawEventView {
    RawEventView {
        id,
        timestamp: unsigned_timestamp(date),
        sender_id: match sender {
            SenderView::Me => self_id,
            SenderView::Other { id, name } => id,
        },
        kind: Some(EventKindView::Message(text)),
        profile: Some(
            SenderProfileView {
                display_name: Some(
                    match sender {
                        SenderView::Me => own_name(),
                        SenderView::Other { id, name } => name,
                    },
                ),
                avatar: None,
            },
        ),
    }
}

/// Turns a text message into a raw event for the aggregator. `date` counts
/// seconds from the epoch and may lie before it.
pub fn message_event(id: String, date: i64, text: String, sender: Sender, self_id: &str) -> (raw:
    RawEvent)
    ensures
        raw@ == message_view(id@, date, text@, sender@, self_id@),
        signed_seconds(raw.timestamp) == date,
{
    let timestamp = crate::message::timestamp_of_seconds(date);
    let (sender_id, name) = match sender {
        Sender::Me => (self_id.to_owned(), "You".to_owned()),
        Sender::Other { id, name } => (id, name),
    };
    RawEvent {
        id,
        timestamp,
        sender_id,
        kind: Some(EventKind::Message(text)),
        profile: Some(SenderProfile { display_name: Some(name), avatar: None }),
    }
}

/// The number of the message that an event id names. Telegram numbers its
/// messages; an id that is no such number names no message.
pub fn message_number(event_id: &str) -> (res: Option<i32>)
    ensures
        res == decimal_i32(event_id@),
{
    parse_i32(event_id)
}

} // verus!
