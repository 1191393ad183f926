//! Secrets kept in the system's credential store, one entry per key under the
//! application's service name.
use vstd::prelude::*;

verus! {

#[verifier::external_type_specification]
#[verifier::external_body]
pub struct ExKeyringEntry(keyring::Entry);

#[verifier::external_type_specification]
#[verifier::external_body]
pub struct ExKeyringError(keyring::Error);

/// The service name under which every secret is kept.
pub const SERVICE_NAME: &'static str = "grovr";

/// Relies on `keyring::Entry::new`: the store's entry for the service and user.
#[verifier::external_body]
fn open_entry(service: &str, user: &str) -> Result<keyring::Entry, keyring::Error> {
    keyring::Entry::new(service, user)
}

/// Relies on `keyring::Entry::set_password`: saves the secret in the entry.
#[verifier::external_body]
fn entry_set_password(entry: &keyring::Entry, password: &str) -> Result<(), keyring::Error> {
    entry.set_password(password)
}

/// Relies on `keyring::Entry::get_password`: the secret saved in the entry.
#[verifier::external_body]
fn entry_get_password(entry: &keyring::Entry) -> Result<String, keyring::Error> {
    entry.get_password()
}

/// Relies on `keyring::Entry::delete_credential`: removes the entry's secret.
#[verifier::external_body]
fn entry_delete_credential(entry: &keyring::Entry) -> Result<(), keyring::Error> {
    entry.delete_credential()
}

/// Relies on the variants of `keyring::Error`: whether the error says that
/// the entry holds no secret.
#[verifier::external_body]
fn is_no_entry(e: &keyring::Error) -> bool {
    match e {
        keyring::Error::NoEntry => true,
        _ => false,
    }
}

/// Relies on the `Display` of `keyring::Error`: its description.
#[verifier::external_body]
fn keyring_error_text(e: &keyring::Error) -> String {
    e.to_string()
}

/// Why the credential store did not give what was asked.
#[derive(Debug, Clone)]
pub enum StoreError {
    /// The entry holds no secret.
    NoEntry,
    /// Any other failure, with its description.
    Failed(String),
}

fn store_error(e: &keyring::Error) -> StoreError {
    if is_no_entry(e) {
        StoreError::NoEntry
    } else {
        StoreError::Failed(keyring_error_text(e))
    }
}

/// What a lookup gives its caller: the secret; none when the entry holds no
/// secret; otherwise the failure's description.
pub fn lookup_result(r: Result<String, StoreError>) -> (out: Result<Option<String>, String>)
    ensures
        r matches Ok(s) ==> out == Ok::<Option<String>, String>(Some(s)),
        r matches Err(StoreError::NoEntry) ==> out == Ok::<Option<String>, String>(None),
        r matches Err(StoreError::Failed(m)) ==> out == Err::<Option<String>, String>(m),
{
    match r {
        Ok(s) => Ok(Some(s)),
        Err(StoreError::NoEntry) => Ok(None),
        Err(StoreError::Failed(m)) => Err(m),
    }
}

/// What a deletion gives its caller: success also when there was nothing to
/// delete; otherwise the failure's description.
pub fn deletion_result(r: Result<(), StoreError>) -> (out: Result<(), String>)
    ensures
        r is Ok ==> out is Ok,
        r matches Err(StoreError::NoEntry) ==> out is Ok,
        r matches Err(StoreError::Failed(m)) ==> out == Err::<(), String>(m),
{
    match r {
        Ok(()) => Ok(()),
        Err(StoreError::NoEntry) => Ok(()),
        Err(StoreError::Failed(m)) => Err(m),
    }
}

/// Saves `secret` under `key`.
pub fn store_secret(key: &str, secret: &str) -> Result<(), String> {
    let entry = match open_entry(SERVICE_NAME, key) {
        Ok(e) => e,
        Err(e) => return Err(keyring_error_text(&e)),
    };
    match entry_set_password(&entry, secret) {
        Ok(()) => Ok(()),
        Err(e) => Err(keyring_error_text(&e)),
    }
}

/// The secret saved under `key`; none if there is none.
pub fn get_secret(key: &str) -> Result<Option<String>, String> {
    let entry = match open_entry(SERVICE_NAME, key) {
        Ok(e) => e,
        Err(e) => return Err(keyring_error_text(&e)),
    };
    let found = match entry_get_password(&entry) {
        Ok(s) => Ok(s),
        Err(e) => Err(store_error(&e)),
    };
    lookup_result(found)
}

/// Deletes the secret saved under `key`; deleting a missing secret succeeds.
pub fn delete_secret(key: &str) -> Result<(), String> {
    let entry = match open_entry(SERVICE_NAME, key) {
        Ok(e) => e,
        Err(e) => return Err(keyring_error_text(&e)),
    };
    let done = match entry_delete_credential(&entry) {
        Ok(()) => Ok(()),
        Err(e) => Err(store_error(&e)),
    };
    deletion_result(done)
}

/// The key under which the token of the GitHub connection `id` is kept.
pub fn github_token_key(id: &str) -> (r: String)
    ensures
        r@ == "github-token-"@ + id@,
{
    String::from_str("github-token-").concat(id)
}

/// The key under which the token of the Jira site `host` is kept.
pub fn jira_token_key(host: &str) -> (r: String)
    ensures
        r@ == "jira-token-"@ + host@,
{
    String::from_str("jira-token-").concat(host)
}

} // verus!
