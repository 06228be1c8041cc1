//! Records of the file registry and pending actions, the status summary,
//! and the registry's decisions on what its statements report.
pub mod models;
pub mod registry;
pub mod status;

pub use models::{FileRecord, PendingAction};
pub use status::TriageStatus;
