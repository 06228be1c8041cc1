//! API keys in the OS-native keyring, under the service name of this
//! application and a per-provider user name.
use vstd::prelude::*;

mod backend;

use self::backend::{entry_delete_credential, entry_get_password, entry_set_password, open_entry};
pub use self::backend::{KeyEntry, KeyLocation, KeyringRecord, StoredKey};

verus! {

/// The keyring service under which all keys of this application are kept.
pub fn service_name() -> (s: &'static str)
    ensures
        s@ == "downloads-triage"@,
{
    "downloads-triage"
}

#[verifier::external_type_specification]
#[verifier::external_body]
pub struct ExEntry(::keyring::Entry);

/// A failure reported by the keyring crate, kept as its message.
#[derive(Debug)]
pub struct KeyringFailure {
    pub detail: String,
}

/// Why an API-key operation failed, with the keyring's own report.
#[derive(Debug)]
pub enum ApiKeyError {
    /// The keyring entry could not be created.
    EntryUnavailable(KeyringFailure),
    /// The key could not be stored.
    NotStored(KeyringFailure),
    /// The key could not be read (not set or inaccessible).
    NotRetrieved(KeyringFailure),
    /// The key could not be deleted.
    NotDeleted(KeyringFailure),
}

impl ApiKeyError {
    /// The context message of the failure.
    pub fn message(&self) -> (m: &'static str)
        ensures
            m@ == match self {
                ApiKeyError::EntryUnavailable(_) => "Failed to create keyring entry"@,
                ApiKeyError::NotStored(_) => "Failed to store API key"@,
                ApiKeyError::NotRetrieved(_) => "Failed to retrieve API key (not set or inaccessible)"@,
                ApiKeyError::NotDeleted(_) => "Failed to delete API key"@,
            },
    {
        match self {
            ApiKeyError::EntryUnavailable(_) => "Failed to create keyring entry",
            ApiKeyError::NotStored(_) => "Failed to store API key",
            ApiKeyError::NotRetrieved(_) => "Failed to retrieve API key (not set or inaccessible)",
            ApiKeyError::NotDeleted(_) => "Failed to delete API key",
        }
    }
}

/// A step of an API-key operation that calls the keyring.
#[derive(Debug, PartialEq, Eq, Structural)]
pub enum KeyringStep {
    /// Creating the keyring entry.
    OpenEntry,
    /// Storing the key.
    Store,
    /// Reading the key.
    Retrieve,
    /// Deleting the key.
    Delete,
}

/// The error an API-key operation reports when the keyring fails at `step`
/// with `failure`.
pub open spec fn failure_at(step: KeyringStep, failure: KeyringFailure) -> ApiKeyError {
    match step {
        KeyringStep::OpenEntry => ApiKeyError::EntryUnavailable(failure),
        KeyringStep::Store => ApiKeyError::NotStored(failure),
        KeyringStep::Retrieve => ApiKeyError::NotRetrieved(failure),
        KeyringStep::Delete => ApiKeyError::NotDeleted(failure),
    }
}

/// What an API-key operation makes of the keyring's answer at `step`: a
/// success passes through, a failure becomes the error of that step,
/// keeping the keyring's report.
pub fn outcome_at<T>(step: KeyringStep, answer: Result<T, KeyringFailure>) -> (r: Result<
    T,
    ApiKeyError,
>)
    ensures
        match answer {
            Ok(v) => r == Ok::<T, ApiKeyError>(v),
            Err(f) => r == Err::<T, ApiKeyError>(failure_at(step, f)),
        },
{
    match answer {
        Ok(v) => Ok(v),
        Err(f) => Err(
            match step {
                KeyringStep::OpenEntry => ApiKeyError::EntryUnavailable(f),
                KeyringStep::Store => ApiKeyError::NotStored(f),
                KeyringStep::Retrieve => ApiKeyError::NotRetrieved(f),
                KeyringStep::Delete => ApiKeyError::NotDeleted(f),
            },
        ),
    }
}

/// The keyring location of the API key of `service`: this application's
/// service name, with `service` as the user name.
pub open spec fn key_location_is(l: KeyLocation, service: Seq<char>) -> bool {
    l.service@ == "downloads-triage"@ && l.user@ == service
}

/// The keyring reported `l` after it performed `step`, with `key`, on the
/// entry of the API key of `service` (this application's service name, with
/// `service` as the user name).
pub open spec fn keyring_did(
    l: KeyLocation,
    step: KeyringStep,
    service: Seq<char>,
    key: Seq<char>,
) -> bool {
    &&& l.record.performed() == step
    &&& l.record.entry_service() == "downloads-triage"@
    &&& l.record.entry_user() == service
    &&& l.record.key_handled() == key
}

/// Law: a key read back for a service comes from the very entry into which
/// a key for that service is stored, and the one deleted for it.
pub proof fn lemma_store_read_delete_same_entry(
    stored: KeyLocation,
    read: KeyLocation,
    deleted: KeyLocation,
    service: Seq<char>,
    key: Seq<char>,
    read_key: Seq<char>,
)
    requires
        keyring_did(stored, KeyringStep::Store, service, key),
        keyring_did(read, KeyringStep::Retrieve, service, read_key),
        keyring_did(deleted, KeyringStep::Delete, service, Seq::<char>::empty()),
    ensures
        stored.record.entry_service() == read.record.entry_service(),
        stored.record.entry_user() == read.record.entry_user(),
        deleted.record.entry_service() == read.record.entry_service(),
        deleted.record.entry_user() == read.record.entry_user(),
{
}

/// Store API key in OS-native keyring: `key` goes into the entry of this
/// application's service with the user name `service`, and what was stored
/// where is returned. Whether it succeeds is up to the keyring; a failure is
/// reported as the error of the step that failed, with the keyring's report
/// (see `outcome_at`).
pub fn store_api_key(service: &str, key: &str) -> (r: Result<StoredKey, ApiKeyError>)
    ensures
        r matches Ok(s) ==> key_location_is(s.location, service@) && s.key@ == key@,
        r matches Ok(s) ==> keyring_did(s.location, KeyringStep::Store, service@, key@),
        r matches Err(e) ==> (e is EntryUnavailable || e is NotStored),
{
    let entry = match outcome_at(KeyringStep::OpenEntry, open_entry(service_name(), service)) {
        Ok(entry) => entry,
        Err(e) => return Err(e),
    };
    outcome_at(KeyringStep::Store, entry_set_password(&entry, key))
}

/// Retrieve API key from OS-native keyring: it is read from the entry of
/// this application's service with the user name `service`. What comes
/// back, and whether anything does, is up to the keyring; a failure is
/// reported as the error of the step that failed (see `outcome_at`).
pub fn retrieve_api_key(service: &str) -> (r: Result<StoredKey, ApiKeyError>)
    ensures
        r matches Ok(s) ==> key_location_is(s.location, service@),
        r matches Ok(s) ==> keyring_did(s.location, KeyringStep::Retrieve, service@, s.key@),
        r matches Err(e) ==> (e is EntryUnavailable || e is NotRetrieved),
{
    let entry = match outcome_at(KeyringStep::OpenEntry, open_entry(service_name(), service)) {
        Ok(entry) => entry,
        Err(e) => return Err(e),
    };
    outcome_at(KeyringStep::Retrieve, entry_get_password(&entry))
}

/// Delete API key from keyring: the entry of this application's service with
/// the user name `service` is deleted, and its location returned. Whether it
/// succeeds is up to the keyring; a failure is reported as the error of the
/// step that failed (see `outcome_at`).
pub fn delete_api_key(service: &str) -> (r: Result<KeyLocation, ApiKeyError>)
    ensures
        r matches Ok(l) ==> key_location_is(l, service@),
        r matches Ok(l) ==> keyring_did(l, KeyringStep::Delete, service@, Seq::<char>::empty()),
        r matches Err(e) ==> (e is EntryUnavailable || e is NotDeleted),
{
    let entry = match outcome_at(KeyringStep::OpenEntry, open_entry(service_name(), service)) {
        Ok(entry) => entry,
        Err(e) => return Err(e),
    };
    outcome_at(KeyringStep::Delete, entry_delete_credential(&entry))
}

} // verus!
