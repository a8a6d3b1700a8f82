//! Keychain service: OS-native secret storage through the `keyring` crate.
//! All API keys pass through here; no plaintext credential is written to the
//! filesystem, the database or the environment. The application records
//! each access in its audit log before calling these functions.

use vstd::prelude::*;
use vstd::string::*;
use crate::error::CntrlError;
use crate::text::concat_str;

verus! {

/// The application-level service identifier used for all keychain entries.
pub const APP_SERVICE: &'static str = "cntrl-browser";

/// Masked sentinel returned to the frontend to indicate "a key is stored"
/// without revealing the actual value.
pub const MASKED_SENTINEL: &'static str = "***stored***";

/// Keychain entry key for the OpenRouter API key.
pub const KEY_OPENROUTER: &'static str = "openrouter_api_key";

/// Keychain entry key for the Google Gemini API key.
pub const KEY_GEMINI: &'static str = "gemini_api_key";

/// Keychain entry key for the Groq API key.
pub const KEY_GROQ: &'static str = "groq_api_key";

/// Keychain entry key for the HuggingFace access token.
pub const KEY_HF_TOKEN: &'static str = "hf_access_token";

/// Keychain entry key for the Tier 3 custom endpoint API key.
pub const KEY_OPENAI_COMPAT: &'static str = "openai_compat_api_key";

/// `keyring::Entry`, a handle on one credential of the platform store.
#[verifier::external_type_specification]
#[verifier::external_body]
pub struct ExEntry(keyring::Entry);

/// A keyring failure as plain values: whether it says that no entry exists,
/// and its message.
#[derive(Debug, Clone)]
pub struct KeyringFailure {
    /// The store holds no credential for the entry.
    pub no_entry: bool,
    /// The failure's message.
    pub message: String,
}

/// An opened keychain entry with the service and user it was opened for.
struct KeyEntry {
    entry: keyring::Entry,
    service: String,
    user: String,
}

// ── Records of the calls made to the platform store ────────────────────
//
// The platform store belongs to the operating system and is shared with
// every other process, so what it answers cannot be stated. Each record
// below holds of one call that was made, with the values handed to it and
// whether it succeeded; nothing else is known of it. The contracts of the
// functions that use the store speak of these records, so that they state
// what was handed to the store and what came back.

/// A call `keyring::Entry::new(service, user)` was made and succeeded
/// exactly when `ok`.
pub uninterp spec fn keyring_opened(service: Seq<char>, user: Seq<char>, ok: bool) -> bool;

/// A call of `keyring::Entry::set_password(password)` was made on the entry
/// for `service` and `user`, and succeeded exactly when `ok`.
pub uninterp spec fn keyring_written(service: Seq<char>, user: Seq<char>, password: Seq<char>, ok: bool) -> bool;

/// A call of `keyring::Entry::get_password()` was made on the entry for
/// `service` and `user`, and handed back `secret` (`None` when it failed).
pub uninterp spec fn keyring_read(service: Seq<char>, user: Seq<char>, secret: Option<Seq<char>>) -> bool;

/// A call of `keyring::Entry::delete_credential()` was made on the entry for
/// `service` and `user`: it succeeded exactly when `ok`, and failed with
/// `NoEntry` exactly when `no_entry`.
pub uninterp spec fn keyring_deleted(service: Seq<char>, user: Seq<char>, ok: bool, no_entry: bool) -> bool;

/// Calls `keyring::Entry::new(service, user)` and keeps the entry with the
/// service and user it was opened for; a failure is converted as
/// `KeyringFailure` describes (`NoEntry` apart, with the error's `Display`
/// text). Whether the call succeeds is up to the platform store: the
/// contract records the call and no more.
#[verifier::external_body]
fn entry_new(service: &str, user: &str) -> (r: Result<KeyEntry, KeyringFailure>)
    ensures
        keyring_opened(service@, user@, r is Ok),
        r matches Ok(e) ==> e.service@ == service@ && e.user@ == user@,
{
    match keyring::Entry::new(service, user) {
        Ok(entry) => Ok(KeyEntry { entry, service: service.to_string(), user: user.to_string() }),
        Err(keyring::Error::NoEntry) => Err(KeyringFailure { no_entry: true, message: keyring::Error::NoEntry.to_string() }),
        Err(e) => Err(KeyringFailure { no_entry: false, message: e.to_string() }),
    }
}

/// Calls `keyring::Entry::set_password(password)` on the entry, converting a
/// failure as `entry_new` does. Whether the store accepts the password is up
/// to the store: the contract records the call and no more.
#[verifier::external_body]
fn entry_set_password(entry: &KeyEntry, password: &str) -> (r: Result<(), KeyringFailure>)
    ensures
        keyring_written(entry.service@, entry.user@, password@, r is Ok),
{
    match entry.entry.set_password(password) {
        Ok(()) => Ok(()),
        Err(keyring::Error::NoEntry) => Err(KeyringFailure { no_entry: true, message: keyring::Error::NoEntry.to_string() }),
        Err(e) => Err(KeyringFailure { no_entry: false, message: e.to_string() }),
    }
}

/// Calls `keyring::Entry::get_password()` on the entry, converting a failure
/// as `entry_new` does. What comes back is whatever the store holds: the
/// contract records the call and the secret it handed back, and no more.
#[verifier::external_body]
fn entry_get_password(entry: &KeyEntry) -> (r: Result<String, KeyringFailure>)
    ensures
        keyring_read(entry.service@, entry.user@, match r {
            Ok(s) => Some(s@),
            Err(_) => None,
        }),
{
    match entry.entry.get_password() {
        Ok(secret) => Ok(secret),
        Err(keyring::Error::NoEntry) => Err(KeyringFailure { no_entry: true, message: keyring::Error::NoEntry.to_string() }),
        Err(e) => Err(KeyringFailure { no_entry: false, message: e.to_string() }),
    }
}

/// Calls `keyring::Entry::delete_credential()` on the entry, converting a
/// failure as `entry_new` does. The outcome is up to the store: the contract
/// records the call, whether it succeeded and whether it failed for want of
/// an entry, and no more.
#[verifier::external_body]
fn entry_delete_credential(entry: &KeyEntry) -> (r: Result<(), KeyringFailure>)
    ensures
        keyring_deleted(entry.service@, entry.user@, r is Ok, r matches Err(f) && f.no_entry),
{
    match entry.entry.delete_credential() {
        Ok(()) => Ok(()),
        Err(keyring::Error::NoEntry) => Err(KeyringFailure { no_entry: true, message: keyring::Error::NoEntry.to_string() }),
        Err(e) => Err(KeyringFailure { no_entry: false, message: e.to_string() }),
    }
}

/// `e` is a keychain error whose message starts with `prefix`.
pub open spec fn keychain_error_with(e: CntrlError, prefix: Seq<char>) -> bool {
    e matches CntrlError::Keychain(m) && prefix.len() <= m@.len() && m@.subrange(0, prefix.len() as int) == prefix
}

/// The message prefix of a failure to open the entry.
pub open spec fn entry_failure_prefix() -> Seq<char> {
    "Failed to create keychain entry: "@
}

/// The message prefix of a failure of `action` ("store", "retrieve",
/// "delete") on the secret `key`.
pub open spec fn action_failure_prefix(action: Seq<char>, key: Seq<char>) -> Seq<char> {
    "Failed to "@ + action + " secret '"@ + key + "': "@
}

/// The error for a failure to open the keychain entry.
pub fn entry_error(f: KeyringFailure) -> (r: CntrlError)
    ensures
        r matches CntrlError::Keychain(m) && m@ == entry_failure_prefix() + f.message@,
{
    CntrlError::Keychain(concat_str("Failed to create keychain entry: ", f.message.as_str()))
}

/// The error for a failure of `action` on the secret `key`.
pub fn action_error(action: &str, key: &str, f: KeyringFailure) -> (r: CntrlError)
    ensures
        r matches CntrlError::Keychain(m) && m@ == action_failure_prefix(action@, key@) + f.message@,
{
    let a = concat_str("Failed to ", action);
    let b = concat_str(a.as_str(), " secret '");
    let c = concat_str(b.as_str(), key);
    let d = concat_str(c.as_str(), "': ");
    CntrlError::Keychain(concat_str(d.as_str(), f.message.as_str()))
}

/// The outcome of a delete: success, including when there was nothing to
/// delete; any other failure is a keychain error.
pub fn delete_outcome(key: &str, result: Result<(), KeyringFailure>) -> (r: Result<(), CntrlError>)
    ensures
        match result {
            Ok(()) => r is Ok,
            Err(f) => if f.no_entry {
                r is Ok
            } else {
                r matches Err(CntrlError::Keychain(m)) && m@ == action_failure_prefix("delete"@, key@) + f.message@
            },
        },
{
    match result {
        Ok(()) => Ok(()),
        Err(f) => {
            if f.no_entry {
                Ok(())
            } else {
                Err(action_error("delete", key, f))
            }
        },
    }
}

/// The outcome of a store: success when the platform store accepted the
/// secret, otherwise a keychain error that names the key.
pub fn store_outcome(key: &str, result: Result<(), KeyringFailure>) -> (r: Result<(), CntrlError>)
    ensures
        match result {
            Ok(()) => r is Ok,
            Err(f) => r matches Err(CntrlError::Keychain(m)) && m@ == action_failure_prefix("store"@, key@) + f.message@,
        },
{
    match result {
        Ok(()) => Ok(()),
        Err(f) => Err(action_error("store", key, f)),
    }
}

/// The outcome of a retrieval: the secret the platform store handed back,
/// or a keychain error that names the key (a missing entry included).
pub fn retrieve_outcome(key: &str, result: Result<String, KeyringFailure>) -> (r: Result<String, CntrlError>)
    ensures
        match result {
            Ok(secret) => r == Ok::<String, CntrlError>(secret),
            Err(f) => r matches Err(CntrlError::Keychain(m)) && m@ == action_failure_prefix("retrieve"@, key@) + f.message@,
        },
{
    match result {
        Ok(secret) => Ok(secret),
        Err(f) => Err(action_error("retrieve", key, f)),
    }
}

proof fn lemma_prefix_of_concat(p: Seq<char>, rest: Seq<char>)
    ensures
        p.len() <= (p + rest).len(),
        (p + rest).subrange(0, p.len() as int) == p,
{
    assert((p + rest).subrange(0, p.len() as int) =~= p);
}

/// Stores a secret in the OS keychain under `key`: opens the entry for
/// service `APP_SERVICE` and user `key`, and hands it `value`. Whether the
/// platform store accepts it is up to the store; the contract states the
/// calls made and what each answer becomes (`store_outcome` for the write),
/// and a failure is a keychain error that says which step failed.
pub fn store_secret(key: &str, value: &str) -> (r: Result<(), CntrlError>)
    ensures
        match r {
            Ok(()) => keyring_opened(APP_SERVICE@, key@, true) && keyring_written(APP_SERVICE@, key@, value@, true),
            Err(e) => (keyring_opened(APP_SERVICE@, key@, false) && keychain_error_with(e, entry_failure_prefix()))
                || (keyring_opened(APP_SERVICE@, key@, true) && keyring_written(APP_SERVICE@, key@, value@, false)
                && keychain_error_with(e, action_failure_prefix("store"@, key@))),
        },
{
    let entry = match entry_new(APP_SERVICE, key) {
        Ok(entry) => entry,
        Err(f) => {
            proof {
                lemma_prefix_of_concat(entry_failure_prefix(), f.message@);
            }
            return Err(entry_error(f));
        },
    };
    let result = entry_set_password(&entry, value);
    let ghost message = match result {
        Ok(()) => Seq::<char>::empty(),
        Err(ref f) => f.message@,
    };
    proof {
        lemma_prefix_of_concat(action_failure_prefix("store"@, key@), message);
    }
    store_outcome(key, result)
}

/// Retrieves the secret stored under `key`: opens the entry for service
/// `APP_SERVICE` and user `key`, and reads it. What comes back is whatever
/// the platform store holds; the contract states the calls made and that a
/// secret read is handed back unchanged (`retrieve_outcome`), and a failure
/// (including a missing entry) is a keychain error that says which step
/// failed.
pub fn retrieve_secret(key: &str) -> (r: Result<String, CntrlError>)
    ensures
        match r {
            Ok(secret) => keyring_opened(APP_SERVICE@, key@, true) && keyring_read(APP_SERVICE@, key@, Some(secret@)),
            Err(e) => (keyring_opened(APP_SERVICE@, key@, false) && keychain_error_with(e, entry_failure_prefix()))
                || (keyring_opened(APP_SERVICE@, key@, true) && keyring_read(APP_SERVICE@, key@, None)
                && keychain_error_with(e, action_failure_prefix("retrieve"@, key@))),
        },
{
    let entry = match entry_new(APP_SERVICE, key) {
        Ok(entry) => entry,
        Err(f) => {
            proof {
                lemma_prefix_of_concat(entry_failure_prefix(), f.message@);
            }
            return Err(entry_error(f));
        },
    };
    let result = entry_get_password(&entry);
    let ghost message = match result {
        Ok(_) => Seq::<char>::empty(),
        Err(ref f) => f.message@,
    };
    proof {
        lemma_prefix_of_concat(action_failure_prefix("retrieve"@, key@), message);
    }
    retrieve_outcome(key, result)
}

/// Deletes the secret stored under `key`: opens the entry for service
/// `APP_SERVICE` and user `key`, and deletes its credential. Deleting a
/// secret that does not exist succeeds (`delete_outcome`); whether the store
/// succeeds otherwise is up to the store, and any other failure is a
/// keychain error that says which step failed.
pub fn delete_secret(key: &str) -> (r: Result<(), CntrlError>)
    ensures
        match r {
            Ok(()) => keyring_opened(APP_SERVICE@, key@, true) && (keyring_deleted(APP_SERVICE@, key@, true, false)
                || keyring_deleted(APP_SERVICE@, key@, false, true)),
            Err(e) => (keyring_opened(APP_SERVICE@, key@, false) && keychain_error_with(e, entry_failure_prefix()))
                || (keyring_opened(APP_SERVICE@, key@, true) && keyring_deleted(APP_SERVICE@, key@, false, false)
                && keychain_error_with(e, action_failure_prefix("delete"@, key@))),
        },
{
    let entry = match entry_new(APP_SERVICE, key) {
        Ok(entry) => entry,
        Err(f) => {
            proof {
                lemma_prefix_of_concat(entry_failure_prefix(), f.message@);
            }
            return Err(entry_error(f));
        },
    };
    let result = entry_delete_credential(&entry);
    let ghost message = match result {
        Ok(()) => Seq::<char>::empty(),
        Err(ref f) => f.message@,
    };
    proof {
        lemma_prefix_of_concat(action_failure_prefix("delete"@, key@), message);
    }
    delete_outcome(key, result)
}

/// Whether a secret is stored under `key`: whether retrieving it (as
/// `retrieve_secret` does) succeeds. The answer is the platform store's; the
/// contract states the calls it rests on.
pub fn secret_exists(key: &str) -> (r: bool)
    ensures
        r ==> keyring_opened(APP_SERVICE@, key@, true)
            && exists|secret: Seq<char>| #[trigger] keyring_read(APP_SERVICE@, key@, Some(secret)),
        !r ==> keyring_opened(APP_SERVICE@, key@, false)
            || (keyring_opened(APP_SERVICE@, key@, true) && keyring_read(APP_SERVICE@, key@, None)),
{
    match retrieve_secret(key) {
        Ok(secret) => {
            assert(keyring_read(APP_SERVICE@, key@, Some(secret@)));
            true
        },
        Err(_) => false,
    }
}

} // verus!
