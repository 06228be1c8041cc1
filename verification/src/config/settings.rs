//! The settings of the triage agent. Reading and writing the settings file
//! is done by the caller; the rules for filling and completing settings are
//! here.
use vstd::prelude::*;

use crate::config::rules::{are_default_rules, CategorizationRule};
use crate::paths::{path_is_absolute, path_is_absolute_of, path_join, path_join_of};

verus! {

/// LLM configuration.
#[derive(Debug, Clone)]
pub struct LlmConfig {
    /// API key service name (stored in OS keyring)
    pub api_key_service: String,
    /// Model to use (e.g., "gpt-4", "ollama/llama2")
    pub model: String,
    /// Optional custom API base URL for OpenAI-compatible endpoints
    pub api_base: Option<String>,
    /// Enable LLM-based naming
    pub enabled: bool,
}

/// The settings of the triage agent.
#[derive(Debug, Clone)]
pub struct Config {
    /// Path to Downloads folder
    pub downloads_dir: String,
    /// Path to data directory (SQLite, logs)
    pub data_dir: String,
    /// Path to config directory (not stored in the settings file)
    pub config_dir: String,
    /// Categorization rules
    pub rules: Vec<CategorizationRule>,
    /// LLM configuration (optional)
    pub llm: Option<LlmConfig>,
    /// Enable dry-run mode by default
    pub dry_run: bool,
    /// Log level
    pub log_level: String,
}

/// Where the data directory lies once settings are read from the directory
/// `config_dir`: a non-empty relative `data_dir` is taken relative to it.
pub open spec fn resolved_data_dir(config_dir: Seq<char>, data_dir: Seq<char>) -> Seq<char> {
    if data_dir.len() != 0 && !path_is_absolute_of(data_dir) {
        path_join_of(config_dir, data_dir)
    } else {
        data_dir
    }
}

impl Config {
    /// Completes settings read from the settings file in `config_dir`: records
    /// that directory and makes a relative, non-empty data directory
    /// relative to it.
    pub fn resolve_paths(&mut self, config_dir: &str)
        ensures
            final(self).config_dir@ == config_dir@,
            final(self).data_dir@ == resolved_data_dir(config_dir@, old(self).data_dir@),
            final(self).downloads_dir == old(self).downloads_dir,
            final(self).rules == old(self).rules,
            final(self).llm == old(self).llm,
            final(self).dry_run == old(self).dry_run,
            final(self).log_level == old(self).log_level,
    {
        self.config_dir = config_dir.to_owned();
        if !self.data_dir.as_str().is_empty() && !path_is_absolute(self.data_dir.as_str()) {
            self.data_dir = path_join(config_dir, self.data_dir.as_str());
        }
    }

    /// The default settings, for the settings directory `config_dir` and the
    /// Downloads folder `downloads_dir`: data under `config_dir/data`, the
    /// default rules, no LLM, dry-run on, log level `info`.
    pub fn default_config(config_dir: &str, downloads_dir: &str) -> (c: Self)
        ensures
            c.downloads_dir@ == downloads_dir@,
            c.data_dir@ == path_join_of(config_dir@, "data"@),
            c.config_dir@ == config_dir@,
            are_default_rules(c.rules@),
            c.llm is None,
            c.dry_run,
            c.log_level@ == "info"@,
    {
        Config {
            downloads_dir: downloads_dir.to_owned(),
            data_dir: path_join(config_dir, "data"),
            config_dir: config_dir.to_owned(),
            rules: CategorizationRule::defaults(),
            llm: None,
            dry_run: true,
            log_level: "info".to_owned(),
        }
    }

    /// Create a test configuration: downloads and data in `downloads_dir`,
    /// an empty config directory, the default rules, no LLM, dry-run on, log
    /// level `debug`.
    pub fn default_for_test(downloads_dir: &str) -> (c: Self)
        ensures
            c.downloads_dir@ == downloads_dir@,
            c.data_dir@ == downloads_dir@,
            c.config_dir@ == Seq::<char>::empty(),
            are_default_rules(c.rules@),
            c.llm is None,
            c.dry_run,
            c.log_level@ == "debug"@,
    {
        Config {
            downloads_dir: downloads_dir.to_owned(),
            data_dir: downloads_dir.to_owned(),
            config_dir: String::new(),
            rules: CategorizationRule::defaults(),
            llm: None,
            dry_run: true,
            log_level: "debug".to_owned(),
        }
    }
}

} // verus!
