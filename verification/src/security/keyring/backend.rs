//! The calls into the keyring crate, and the records of what they did.
//!
//! A `KeyringRecord` can only be made here, by a keyring call that
//! succeeded, and records that call (which step, on which entry, with which
//! key); no other code can make or change one.
use vstd::prelude::*;

use super::{KeyringFailure, KeyringStep};

verus! {

/// The record of a keyring call that succeeded: which step, on which
/// entry, with which key. Only the calls below make one.
pub struct KeyringRecord {
    done: Ghost<(KeyringStep, Seq<char>, Seq<char>, Seq<char>)>,
}

impl KeyringRecord {
    /// The step of the keyring call.
    pub closed spec fn performed(&self) -> KeyringStep {
        self.done@.0
    }

    /// The service of the entry the call addressed.
    pub closed spec fn entry_service(&self) -> Seq<char> {
        self.done@.1
    }

    /// The user name of the entry the call addressed.
    pub closed spec fn entry_user(&self) -> Seq<char> {
        self.done@.2
    }

    /// The key the call wrote or read (empty for other steps).
    pub closed spec fn key_handled(&self) -> Seq<char> {
        self.done@.3
    }
}

/// Where a key is kept in the keyring: a service and a user name, with the
/// record of the keyring call that reported it.
pub struct KeyLocation {
    pub service: String,
    pub user: String,
    pub record: KeyringRecord,
}

/// A key and the keyring entry it was stored in or read from.
pub struct StoredKey {
    pub location: KeyLocation,
    pub key: String,
}

/// An open keyring entry, with the service and user it was opened for.
pub struct KeyEntry {
    service: String,
    user: String,
    entry: ::keyring::Entry,
}

impl KeyEntry {
    /// The service the entry was opened for.
    pub closed spec fn service_view(&self) -> Seq<char> {
        self.service@
    }

    /// The user name the entry was opened for.
    pub closed spec fn user_view(&self) -> Seq<char> {
        self.user@
    }
}

/// The location of `entry`, recording that `step` was performed on it with
/// `key`.
fn location_after(entry: &KeyEntry, step: KeyringStep, key: &str) -> (l: KeyLocation)
    ensures
        l.service@ == entry.service_view(),
        l.user@ == entry.user_view(),
        l.record.performed() == step,
        l.record.entry_service() == entry.service_view(),
        l.record.entry_user() == entry.user_view(),
        l.record.key_handled() == key@,
{
    KeyLocation {
        service: entry.service.clone(),
        user: entry.user.clone(),
        record: KeyringRecord { done: Ghost((step, entry.service@, entry.user@, key@)) },
    }
}

/// Calls `keyring::Entry::new(service, user)`. Whether an entry can be made
/// depends on the platform's credential store, so success is not stated;
/// the contract claims that an entry that is made is the one for `service`
/// and `user`, which the call takes as its two arguments. An error is kept
/// as its message.
#[verifier::external_body]
pub(crate) fn open_entry(service: &str, user: &str) -> (r: Result<KeyEntry, KeyringFailure>)
    ensures
        r matches Ok(e) ==> e.service_view() == service@ && e.user_view() == user@,
{
    match ::keyring::Entry::new(service, user) {
        Ok(entry) => Ok(KeyEntry { service: service.to_string(), user: user.to_string(), entry }),
        Err(e) => Err(KeyringFailure { detail: e.to_string() }),
    }
}

/// Calls `keyring::Entry::set_password` with `password` on the entry. The
/// outcome depends on the platform's credential store, so success is not
/// stated; the contract claims that a success is reported only after the
/// call succeeded, with the entry's location recording that `password` was
/// stored there.
#[verifier::external_body]
pub(crate) fn entry_set_password(entry: &KeyEntry, password: &str) -> (r: Result<
    StoredKey,
    KeyringFailure,
>)
    ensures
        r matches Ok(s) ==> s.location.service@ == entry.service_view() && s.location.user@
            == entry.user_view() && s.key@ == password@ && s.location.record.performed()
            == KeyringStep::Store && s.location.record.entry_service() == entry.service_view()
            && s.location.record.entry_user() == entry.user_view() && s.location.record.key_handled()
            == password@,
{
    match entry.entry.set_password(password) {
        Ok(()) => Ok(StoredKey {
            location: location_after(entry, KeyringStep::Store, password),
            key: password.to_string(),
        }),
        Err(e) => Err(KeyringFailure { detail: e.to_string() }),
    }
}

/// Calls `keyring::Entry::get_password` on the entry. What it returns is
/// what the platform's credential store holds, so the key read is not
/// stated; the contract claims that it was read from this entry, and that
/// the entry's location records the key that was read.
#[verifier::external_body]
pub(crate) fn entry_get_password(entry: &KeyEntry) -> (r: Result<StoredKey, KeyringFailure>)
    ensures
        r matches Ok(s) ==> s.location.service@ == entry.service_view() && s.location.user@
            == entry.user_view() && s.location.record.performed() == KeyringStep::Retrieve
            && s.location.record.entry_service() == entry.service_view() && s.location.record.entry_user()
            == entry.user_view() && s.location.record.key_handled() == s.key@,
{
    match entry.entry.get_password() {
        Ok(password) => Ok(StoredKey {
            location: location_after(entry, KeyringStep::Retrieve, password.as_str()),
            key: password,
        }),
        Err(e) => Err(KeyringFailure { detail: e.to_string() }),
    }
}

/// Calls `keyring::Entry::delete_credential` on the entry. The outcome
/// depends on the platform's credential store, so success is not stated;
/// the contract claims that a success is reported only after the call
/// succeeded, with the entry's location recording the deletion.
#[verifier::external_body]
pub(crate) fn entry_delete_credential(entry: &KeyEntry) -> (r: Result<KeyLocation, KeyringFailure>)
    ensures
        r matches Ok(l) ==> l.service@ == entry.service_view() && l.user@ == entry.user_view()
            && l.record.performed() == KeyringStep::Delete && l.record.entry_service() == entry.service_view()
            && l.record.entry_user() == entry.user_view() && l.record.key_handled() == Seq::<char>::empty(),
{
    match entry.entry.delete_credential() {
        Ok(()) => Ok(location_after(entry, KeyringStep::Delete, "")),
        Err(e) => Err(KeyringFailure { detail: e.to_string() }),
    }
}

} // verus!
