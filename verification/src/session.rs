//! Where a session is kept: the key under which the store holds the state of
//! one client, and what such a key says about the client it belongs to.

use crate::text::{begins_with, starts_with};
use vstd::prelude::*;
use vstd::string::StringExecFns;

verus! {

/// The providers that the library has an adapter for.
#[derive(Clone, Copy, Debug, PartialEq, Eq, Structural)]
pub enum ProviderKind {
    Matrix,
    Telegram,
}

/// The name of a provider, as it stands in storage keys.
pub open spec fn provider_name(kind: ProviderKind) -> Seq<char> {
    match kind {
        ProviderKind::Matrix => "matrix"@,
        ProviderKind::Telegram => "telegram"@,
    }
}

/// The key of the client of `kind` that is logged in as `account_id`: the
/// provider's name, a hyphen, the account.
pub open spec fn key_text(kind: ProviderKind, account_id: Seq<char>) -> Seq<char> {
    provider_name(kind) + "-"@ + account_id
}

/// The provider that a key belongs to, by the prefix of the key.
pub open spec fn provider_of(key: Seq<char>) -> Option<ProviderKind> {
    if begins_with(key, "matrix-"@) {
        Some(ProviderKind::Matrix)
    } else if begins_with(key, "telegram-"@) {
        Some(ProviderKind::Telegram)
    } else {
        None
    }
}

impl ProviderKind {
    /// The name of the provider, as it stands in storage keys.
    pub fn name(&self) -> (res: &'static str)
        ensures
            res@ == provider_name(*self),
    {
        match self {
            ProviderKind::Matrix => "matrix",
            ProviderKind::Telegram => "telegram",
        }
    }
}

/// The key under which the state of a client is stored.
pub fn storage_key(kind: ProviderKind, account_id: &str) -> (key: String)
    ensures
        key@ == key_text(kind, account_id@),
{
    let mut key = kind.name().to_owned();
    key.append("-");
    key.append(account_id);
    key
}

/// The provider whose adapter can restore the session stored under `key`, or
/// `None` for a key that no adapter wrote.
pub fn provider_of_key(key: &str) -> (res: Option<ProviderKind>)
    ensures
        res == provider_of(key@),
{
    if starts_with(key, "matrix-") {
        Some(ProviderKind::Matrix)
    } else if starts_with(key, "telegram-") {
        Some(ProviderKind::Telegram)
    } else {
        None
    }
}

/// A key leads back to the provider that it was made for, whatever the
/// account is called.
pub proof fn key_names_its_provider(kind: ProviderKind, account_id: Seq<char>)
    ensures
        provider_of(key_text(kind, account_id)) == Some(kind),
{
    reveal_strlit("matrix");
    reveal_strlit("telegram");
    reveal_strlit("-");
    reveal_strlit("matrix-");
    reveal_strlit("telegram-");
    let key = key_text(kind, account_id);
    match kind {
        ProviderKind::Matrix => {
            assert(key.subrange(0, 7) =~= "matrix-"@);
        },
        ProviderKind::Telegram => {
            assert(key.subrange(0, 9) =~= "telegram-"@);
            assert(key[0] == 't');
            assert("matrix-"@[0] == 'm');
            assert(key.subrange(0, 7)[0] == 't');
        },
    }
}

/// The account is what follows the provider's name and the hyphen.
pub proof fn key_ends_with_account(kind: ProviderKind, account_id: Seq<char>)
    ensures
        key_text(kind, account_id).skip(provider_name(kind).len() as int + 1) == account_id,
{
    reveal_strlit("-");
    let key = key_text(kind, account_id);
    assert(key.skip(provider_name(kind).len() as int + 1) =~= account_id);
}

} // verus!
