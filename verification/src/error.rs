//! The failures that a provider or the session store can report.

use vstd::prelude::*;

verus! {

/// Why an operation on a client failed.
#[derive(Clone, Copy, Debug, PartialEq, Eq, Structural)]
pub enum ClientError {
    /// The provider refused the credentials.
    AuthenticationFailed,
    /// The provider no longer accepts the session.
    SessionExpired,
    /// The provider knows no conversation of the given id.
    ConversationNotFound,
    /// The provider could not be reached, or did not answer in full.
    TransientNetworkError,
    /// What the store holds under the key is not a session.
    MalformedStoredSession,
    /// The session could not be written out.
    SerializationError,
}

/// The text that stands for an error in a log or on screen.
pub open spec fn error_text(error: ClientError) -> Seq<char> {
    match error {
        ClientError::AuthenticationFailed => "authentication failed"@,
        ClientError::SessionExpired => "session expired"@,
        ClientError::ConversationNotFound => "conversation not found"@,
        ClientError::TransientNetworkError => "transient network error"@,
        ClientError::MalformedStoredSession => "malformed stored session"@,
        ClientError::SerializationError => "serialization error"@,
    }
}

impl ClientError {
    /// The text that stands for this error in a log or on screen.
    pub fn message(&self) -> (text: String)
        ensures
            text@ == error_text(*self),
    {
        match self {
            ClientError::AuthenticationFailed => "authentication failed".to_owned(),
            ClientError::SessionExpired => "session expired".to_owned(),
            ClientError::ConversationNotFound => "conversation not found".to_owned(),
            ClientError::TransientNetworkError => "transient network error".to_owned(),
            ClientError::MalformedStoredSession => "malformed stored session".to_owned(),
            ClientError::SerializationError => "serialization error".to_owned(),
        }
    }

    /// Whether trying the same call again may succeed without the user doing
    /// anything: only a transient network error is of that kind.
    pub fn is_transient(&self) -> (res: bool)
        ensures
            res == (*self == ClientError::TransientNetworkError),
    {
        match self {
            ClientError::TransientNetworkError => true,
            _ => false,
        }
    }

    /// Whether the user has to log in again before anything else can work.
    pub fn needs_login(&self) -> (res: bool)
        ensures
            res == (*self == ClientError::AuthenticationFailed || *self
                == ClientError::SessionExpired || *self == ClientError::MalformedStoredSession),
    {
        match self {
            ClientError::AuthenticationFailed => true,
            ClientError::SessionExpired => true,
            ClientError::MalformedStoredSession => true,
            _ => false,
        }
    }
}

} // verus!
