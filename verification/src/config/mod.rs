//! Configuration: the settings of the triage agent and its rules.
pub mod rules;
pub mod settings;

pub use rules::CategorizationRule;
pub use settings::{Config, LlmConfig};
