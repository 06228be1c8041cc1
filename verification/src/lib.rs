//! Downloads triage: rule-based categorisation, path checks, hashing and
//! the decisions of the triage worker, with their contracts.
pub mod cli;
pub mod config;
pub mod paths;
pub mod security;
pub mod storage;
pub mod text;
pub mod triage;
