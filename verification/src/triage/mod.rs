//! Triage of downloaded files: categorisation, hashing, file-name
//! suggestions and the decisions of the worker.
pub mod categorizer;
pub mod hasher;
pub mod llm;
pub mod worker;

pub use categorizer::Categorizer;
pub use hasher::{hash_bytes, FileHasher};
pub use llm::LlmClient;
pub use worker::TriageWorker;
