//! The decisions of the `config` command: which keyring service holds the
//! API key, and what answer confirms a reset.
use vstd::prelude::*;

use crate::config::settings::Config;
use crate::security::keyring::{
    delete_api_key as delete_key, key_location_is, keyring_did, store_api_key, ApiKeyError,
    KeyLocation, KeyringStep, StoredKey,
};
use crate::text::{
    ascii_lowercase, ascii_trim_end, ascii_trim_start, lemma_ascii_trim_keeps_ascii, str_eq,
    to_lowercase, trim_to_string, unicode_lowercase, unicode_trim,
};
use vstd::utf8::is_ascii_chars;

verus! {

/// Config subcommand type
#[derive(Debug)]
pub enum ConfigSubcommand {
    Show,
    Edit,
    Reset,
    SetApiKey { key: String },
    DeleteApiKey,
}

/// The keyring service (user name) of the API key: the configured one, or
/// `openai` when no LLM is configured.
pub open spec fn key_service_of(config: Config) -> Seq<char> {
    match config.llm {
        Some(llm) => llm.api_key_service@,
        None => "openai"@,
    }
}

/// The keyring service (user name) of the API key.
pub fn api_key_service(config: &Config) -> (s: &str)
    ensures
        s@ == key_service_of(*config),
{
    match &config.llm {
        Some(llm) => llm.api_key_service.as_str(),
        None => "openai",
    }
}

/// Whether an answer to the reset question confirms it: `y`, whatever the
/// case and surrounding white space. For an ASCII answer: `y` or `Y`
/// between ASCII white space.
pub fn confirms_reset(answer: &str) -> (b: bool)
    ensures
        b == (unicode_lowercase(unicode_trim(answer@)) == "y"@),
        is_ascii_chars(answer@) ==> b == (ascii_lowercase(
            ascii_trim_end(ascii_trim_start(answer@)),
        ) == "y"@),
{
    let trimmed = trim_to_string(answer);
    proof {
        if is_ascii_chars(answer@) {
            lemma_ascii_trim_keeps_ascii(answer@);
        }
    }
    let lower = to_lowercase(trimmed.as_str());
    str_eq(lower.as_str(), "y")
}

/// Set LLM API key: stores `key` in the keyring entry of the configured
/// service, and returns what was stored where.
pub fn set_api_key(config: &Config, key: &str) -> (r: Result<StoredKey, ApiKeyError>)
    ensures
        r matches Ok(s) ==> key_location_is(s.location, key_service_of(*config)) && s.key@
            == key@,
        r matches Ok(s) ==> keyring_did(
            s.location,
            KeyringStep::Store,
            key_service_of(*config),
            key@,
        ),
        r matches Err(e) ==> (e is EntryUnavailable || e is NotStored),
{
    store_api_key(api_key_service(config), key)
}

/// Delete LLM API key of the configured service, and return the keyring
/// location that was deleted.
pub fn delete_api_key(config: &Config) -> (r: Result<KeyLocation, ApiKeyError>)
    ensures
        r matches Ok(l) ==> key_location_is(l, key_service_of(*config)),
        r matches Ok(l) ==> keyring_did(
            l,
            KeyringStep::Delete,
            key_service_of(*config),
            Seq::<char>::empty(),
        ),
        r matches Err(e) ==> (e is EntryUnavailable || e is NotDeleted),
{
    delete_key(api_key_service(config))
}

} // verus!
