use dtriage::storage::registry::{upserted_id_source, UpsertedId};
use dtriage::config::Config;
use dtriage::storage::{FileRecord, TriageStatus};

fn record(dest: Option<&str>) -> FileRecord {
    FileRecord {
        id: 1,
        file_path: "/test/file.pdf".to_string(),
        file_hash: "abc123hash".to_string(),
        original_name: "file.pdf".to_string(),
        categorized_name: None,
        category: Some("Documents".to_string()),
        destination_path: dest.map(|d| d.to_string()),
        status: "categorized".to_string(),
        created_at: 0,
        updated_at: 0,
    }
}

#[test]
fn duplicate_means_same_hash() {
    let r = record(None);
    assert!(r.is_duplicate("abc123hash"));
    assert!(!r.is_duplicate("abc123has"));
    assert!(!r.is_duplicate(""));
}

#[test]
fn full_destination_path_cases() {
    assert_eq!(
        record(Some("/test/Documents/file.pdf")).full_destination_path("/base"),
        "/test/Documents/file.pdf"
    );
    assert_eq!(
        record(Some("Documents/file.pdf")).full_destination_path("/base"),
        "/base/Documents/file.pdf"
    );
    assert_eq!(record(Some("Documents/file.pdf")).full_destination_path("/base/"), "/base/Documents/file.pdf");
    assert_eq!(record(None).full_destination_path("/base"), "/test/file.pdf");
}

#[test]
fn status_counts_keep_low_bits() {
    let s = TriageStatus::from_counts(3, 10, 4);
    assert_eq!((s.pending_actions, s.total_files, s.categorized_files), (3, 10, 4));
    let s = TriageStatus::from_counts((1i64 << 32) + 5, -1, 0);
    assert_eq!(s.pending_actions, 5);
    assert_eq!(s.total_files, u32::MAX);
}

#[test]
fn relative_data_dir_is_taken_from_the_config_dir() {
    let mut c = Config::default_for_test("/downloads");
    c.data_dir = "data".to_string();
    c.resolve_paths("/home/u/.config/downloads-triage");
    assert_eq!(c.config_dir, "/home/u/.config/downloads-triage");
    assert_eq!(c.data_dir, "/home/u/.config/downloads-triage/data");

    let mut c = Config::default_for_test("/downloads");
    c.data_dir = "/var/data".to_string();
    c.resolve_paths("/cfg");
    assert_eq!(c.data_dir, "/var/data");

    let mut c = Config::default_for_test("/downloads");
    c.data_dir = String::new();
    c.resolve_paths("/cfg");
    assert_eq!(c.data_dir, "");
}

#[test]
fn default_config_values() {
    let c = Config::default_config("/cfg", "/home/u/Downloads");
    assert_eq!(c.downloads_dir, "/home/u/Downloads");
    assert_eq!(c.data_dir, "/cfg/data");
    assert_eq!(c.config_dir, "/cfg");
    assert_eq!(c.rules.len(), 7);
    assert!(c.llm.is_none());
    assert!(c.dry_run);
    assert_eq!(c.log_level, "info");

    let t = Config::default_for_test("/tmp/d");
    assert_eq!(t.data_dir, "/tmp/d");
    assert_eq!(t.config_dir, "");
    assert_eq!(t.log_level, "debug");
}

#[test]
fn upserted_id_source_by_rows_affected() {
    assert_eq!(upserted_id_source(1), UpsertedId::FetchByPath);
    assert_eq!(upserted_id_source(0), UpsertedId::LastInsertRowid);
}
