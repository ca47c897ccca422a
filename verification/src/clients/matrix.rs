//! What the Matrix adapter keeps and decides outside of the network: the
//! local part of a session, the secrets generated for it, and the state of
//! the login form.

use crate::clients::{text_view, EventKind};
use crate::text::{begins_with, starts_with};
use rand::distr::Alphanumeric;
use rand::Rng;
use vstd::prelude::*;
use vstd::string::StringExecFns;

verus! {

/// How long the passphrase of the local store is.
pub const PASSPHRASE_LEN: usize = 32;

/// How long the name of the folder of the local store is.
pub const STORE_NAME_LEN: usize = 7;

/// Whether `c` is an ASCII letter or digit.
pub open spec fn is_alphanumeric(c: char) -> bool {
    ('a' <= c <= 'z') || ('A' <= c <= 'Z') || ('0' <= c <= '9')
}

/// Whether `text` has `len` characters, all of them ASCII letters or digits.
pub open spec fn is_token(text: Seq<char>, len: int) -> bool {
    text.len() == len && forall|i: int| 0 <= i < text.len() ==> is_alphanumeric(#[trigger] text[i])
}

/// Calls rand: `rng().sample_iter(Alphanumeric)`, of which the first `len`
/// samples are collected as characters. Which characters come is left to
/// chance; there are `len` of them, and `Alphanumeric` samples ASCII letters
/// and digits only.
#[verifier::external_body]
fn random_token(len: usize) -> (text: String)
    ensures
        is_token(text@, len as int),
{
    rand::rng().sample_iter(Alphanumeric).take(len).map(char::from).collect()
}

/// A new passphrase for the local store of a session.
pub fn generate_passphrase() -> (passphrase: String)
    ensures
        is_token(passphrase@, PASSPHRASE_LEN as int),
{
    random_token(PASSPHRASE_LEN)
}

/// A new name for the folder that holds the local store of a session.
pub fn generate_store_name() -> (name: String)
    ensures
        is_token(name@, STORE_NAME_LEN as int),
{
    random_token(STORE_NAME_LEN)
}

/// The path of a store folder: the data directory, a slash, the folder.
pub open spec fn store_path(data_dir: Seq<char>, store_name: Seq<char>) -> Seq<char> {
    data_dir + "/"@ + store_name
}

/// The local part of a Matrix session: where the homeserver is, and where and
/// under which passphrase the local store lies.
#[derive(Debug, PartialEq, Eq)]
pub struct ClientSession {
    homeserver: String,
    passphrase: String,
    db_path: String,
}

/// Mathematical value of a [`ClientSession`].
pub struct ClientSessionView {
    pub homeserver: Seq<char>,
    pub passphrase: Seq<char>,
    pub db_path: Seq<char>,
}

impl View for ClientSession {
    type V = ClientSessionView;

    closed spec fn view(&self) -> ClientSessionView {
        ClientSessionView {
            homeserver: self.homeserver@,
            passphrase: self.passphrase@,
            db_path: self.db_path@,
        }
    }
}

impl Clone for ClientSession {
    fn clone(&self) -> (res: Self)
        ensures
            res@ == self@,
    {
        ClientSession {
            homeserver: self.homeserver.clone(),
            passphrase: self.passphrase.clone(),
            db_path: self.db_path.clone(),
        }
    }
}

impl ClientSession {
    /// The session that these parts make up, as when it is read back from
    /// the store.
    pub fn new(homeserver: String, passphrase: String, db_path: String) -> (res: Self)
        ensures
            res@ == (ClientSessionView {
                homeserver: homeserver@,
                passphrase: passphrase@,
                db_path: db_path@,
            }),
    {
        ClientSession { homeserver, passphrase, db_path }
    }

    /// The session for a first login at `homeserver`, with the passphrase
    /// and the store name that were generated for it. The store lies in a
    /// folder of that name under `data_dir`.
    pub fn with_secrets(
        homeserver: &str,
        data_dir: &str,
        passphrase: String,
        store_name: &str,
    ) -> (res: Self)
        ensures
            res@ == (ClientSessionView {
                homeserver: homeserver@,
                passphrase: passphrase@,
                db_path: store_path(data_dir@, store_name@),
            }),
    {
        let mut db_path = data_dir.to_owned();
        db_path.append("/");
        db_path.append(store_name);
        ClientSession { homeserver: homeserver.to_owned(), passphrase, db_path }
    }

    /// A session for a first login at `homeserver`: the passphrase and the
    /// folder of the store under `data_dir` are new and unlike any other.
    pub fn generate(homeserver: &str, data_dir: &str) -> (res: Self)
        ensures
            res@.homeserver == homeserver@,
            is_token(res@.passphrase, PASSPHRASE_LEN as int),
            exists|store_name: Seq<char>|
                #[trigger] is_token(store_name, STORE_NAME_LEN as int) && res@.db_path
                    == store_path(data_dir@, store_name),
    {
        let store_name = generate_store_name();
        let passphrase = generate_passphrase();
        let res = ClientSession::with_secrets(homeserver, data_dir, passphrase, store_name.as_str());
        assert(is_token(store_name@, STORE_NAME_LEN as int) && res@.db_path == store_path(
            data_dir@,
            store_name@,
        ));
        res
    }

    /// The address of the homeserver.
    pub fn homeserver(&self) -> (res: &String)
        ensures
            res@ == self@.homeserver,
    {
        &self.homeserver
    }

    /// The passphrase of the local store.
    pub fn passphrase(&self) -> (res: &String)
        ensures
            res@ == self@.passphrase,
    {
        &self.passphrase
    }

    /// The folder of the local store.
    pub fn db_path(&self) -> (res: &String)
        ensures
            res@ == self@.db_path,
    {
        &self.db_path
    }
}

/// The address that is offered before the user types one.
pub open spec fn default_server() -> Seq<char> {
    "https://matrix.org/"@
}

/// The address that a login goes to: what was typed, with `https://` put in
/// front unless it begins with `http` already.
pub open spec fn server_address(typed: Seq<char>) -> Seq<char> {
    if begins_with(typed, "http"@) {
        typed
    } else {
        "https://"@ + typed
    }
}

/// What the form says after a login that failed for `reason`.
pub open spec fn failure_text(reason: Seq<char>) -> Seq<char> {
    "Login failed: "@ + reason
}

/// The state of the Matrix login form.
pub struct Login {
    username: String,
    password: String,
    server_url: String,
    error_message: Option<String>,
}

/// Mathematical value of a [`Login`].
pub struct LoginView {
    pub username: Seq<char>,
    pub password: Seq<char>,
    pub server_url: Seq<char>,
    pub error_message: Option<Seq<char>>,
}

impl View for Login {
    type V = LoginView;

    closed spec fn view(&self) -> LoginView {
        LoginView {
            username: self.username@,
            password: self.password@,
            server_url: self.server_url@,
            error_message: text_view(self.error_message),
        }
    }
}

impl Default for Login {
    fn default() -> (res: Self)
        ensures
            res@ == (LoginView {
                username: Seq::empty(),
                password: Seq::empty(),
                server_url: default_server(),
                error_message: None,
            }),
    {
        Login {
            username: String::new(),
            password: String::new(),
            server_url: "https://matrix.org/".to_owned(),
            error_message: None,
        }
    }
}

impl Login {
    /// The user name as typed.
    pub fn username(&self) -> (res: &String)
        ensures
            res@ == self@.username,
    {
        &self.username
    }

    /// The password as typed.
    pub fn password(&self) -> (res: &String)
        ensures
            res@ == self@.password,
    {
        &self.password
    }

    /// The server address as typed.
    pub fn server_url(&self) -> (res: &String)
        ensures
            res@ == self@.server_url,
    {
        &self.server_url
    }

    /// What the form has to say about the last login, if it failed.
    pub fn error_message(&self) -> (res: &Option<String>)
        ensures
            text_view(*res) == self@.error_message,
    {
        &self.error_message
    }

    /// Takes what the user typed into the three fields.
    pub fn set_fields(&mut self, username: String, password: String, server_url: String)
        ensures
            final(self)@ == (LoginView {
                username: username@,
                password: password@,
                server_url: server_url@,
                ..old(self)@
            }),
    {
        self.username = username;
        self.password = password;
        self.server_url = server_url;
    }

    /// The address that the login goes to.
    pub fn homeserver_url(&self) -> (url: String)
        ensures
            url@ == server_address(self@.server_url),
    {
        if !starts_with(self.server_url.as_str(), "http") {
            let mut url = "https://".to_owned();
            url.append(self.server_url.as_str());
            url
        } else {
            self.server_url.clone()
        }
    }

    /// Notes that the login went through: the form has nothing to complain
    /// about any more.
    pub fn login_succeeded(&mut self)
        ensures
            final(self)@ == (LoginView { error_message: None, ..old(self)@ }),
    {
        self.error_message = None;
    }

    /// Notes that the login failed, and why.
    pub fn login_failed(&mut self, reason: &str)
        ensures
            final(self)@ == (LoginView {
                error_message: Some(failure_text(reason@)),
                ..old(self)@
            }),
    {
        let mut text = "Login failed: ".to_owned();
        text.append(reason);
        self.error_message = Some(text);
    }
}

/// The text of a message that came in parts: the parts one after the other.
pub open spec fn joined(parts: Seq<Seq<char>>) -> Seq<char>
    decreases parts.len(),
{
    if parts.len() == 0 {
        Seq::empty()
    } else {
        joined(parts.drop_last()) + parts.last()
    }
}

/// The event kind of a message whose text came in parts.
pub fn message_of_parts(parts: &Vec<String>) -> (kind: EventKind)
    ensures
        kind@ == crate::clients::EventKindView::Message(joined(parts@.map_values(|p: String| p@))),
{
    let ghost all = parts@.map_values(|p: String| p@);
    let mut text = String::new();
    let mut i: usize = 0;
    assert(all.take(0) =~= Seq::<Seq<char>>::empty());
    while i < parts.len()
        invariant
            i <= parts@.len(),
            all == parts@.map_values(|p: String| p@),
            text@ == joined(all.take(i as int)),
        decreases parts@.len() - i,
    {
        assert(all.take(i + 1).drop_last() =~= all.take(i as int));
        assert(all.take(i + 1).last() == parts@[i as int]@);
        text.append(parts[i].as_str());
        i += 1;
    }
    assert(all.take(parts@.len() as int) =~= all);
    EventKind::Message(text)
}

/// The timestamp of an event in seconds, from the milliseconds that the
/// server stamped it with.
pub fn seconds_of_millis(millis: u64) -> (seconds: u64)
    ensures
        seconds == millis / 1000,
{
    millis / 1000
}

/// The address of a login already has a scheme, and normalizing it again
/// changes nothing.
pub proof fn server_address_is_stable(typed: Seq<char>)
    ensures
        begins_with(server_address(typed), "http"@),
        server_address(server_address(typed)) == server_address(typed),
{
    reveal_strlit("http");
    reveal_strlit("https://");
    let address = server_address(typed);
    if !begins_with(typed, "http"@) {
        assert(address.subrange(0, 4) =~= "http"@);
    }
}

} // verus!
