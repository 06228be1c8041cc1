//! Path checks before files are moved, and API keys in the OS keyring.
pub mod keyring;
pub mod validation;

pub use self::keyring::{
    delete_api_key, retrieve_api_key, store_api_key, ApiKeyError, KeyLocation, StoredKey,
};
pub use validation::{
    destination_outside, validate_destination_path, validate_path_within_base, PathError,
};
