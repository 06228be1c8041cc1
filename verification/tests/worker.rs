use dtriage::config::Config;
use dtriage::triage::worker::{TriageAction, TriageEvent, TriageOutcome, TriageState};
use dtriage::triage::TriageWorker;

fn worker(dry_run: bool) -> TriageWorker {
    let mut config = Config::default_for_test("/downloads");
    config.dry_run = dry_run;
    TriageWorker::new(config)
}

fn finish(action: TriageAction) -> TriageOutcome {
    match action {
        TriageAction::Finish(o) => o,
        other => panic!("expected finish, got {:?}", other),
    }
}

#[test]
fn pdf_is_routed_to_documents_and_queued() {
    let w = worker(true);
    let s = w.start();
    let (s, a) = w.step(s, TriageEvent::Begin(Some("/downloads/report.pdf".to_string())));
    assert!(matches!(a, TriageAction::CheckIsFile { ref path } if path == "/downloads/report.pdf"));
    let (s, a) = w.step(s, TriageEvent::IsFile(true));
    assert!(matches!(a, TriageAction::LookupRecord { .. }));
    let (s, a) = w.step(s, TriageEvent::Looked(None));
    assert!(matches!(a, TriageAction::ComputeHash { .. }));
    let (s, a) = w.step(s, TriageEvent::Hashed(Some("abc".to_string())));
    match &a {
        TriageAction::UpsertRecord { path, hash, original_name } => {
            assert_eq!(path, "/downloads/report.pdf");
            assert_eq!(hash, "abc");
            assert_eq!(original_name, "report.pdf");
        }
        other => panic!("unexpected {:?}", other),
    }
    let (s, a) = w.step(s, TriageEvent::Registered(Some(7)));
    match &a {
        TriageAction::UpdateCategorization { file_id, category, destination } => {
            assert_eq!(*file_id, 7);
            assert_eq!(category, "Documents");
            assert_eq!(destination, "/downloads/Documents/report.pdf");
        }
        other => panic!("unexpected {:?}", other),
    }
    let (s, a) = w.step(s, TriageEvent::Categorized(true));
    match &a {
        TriageAction::CreatePendingAction { file_id, action_type, source, destination } => {
            assert_eq!(*file_id, 7);
            assert_eq!(action_type, "move");
            assert_eq!(source, "/downloads/report.pdf");
            assert_eq!(destination, "/downloads/Documents/report.pdf");
        }
        other => panic!("unexpected {:?}", other),
    }
    let (s, a) = w.step(s, TriageEvent::Queued(true));
    assert_eq!(finish(a), TriageOutcome::Queued { dry_run: true });
    assert!(matches!(s, TriageState::Finished));
}

#[test]
fn event_without_path_is_skipped() {
    let w = worker(true);
    let (s, a) = w.step(w.start(), TriageEvent::Begin(None));
    assert_eq!(finish(a), TriageOutcome::NoPath);
    assert!(matches!(s, TriageState::Finished));
}

#[test]
fn directories_are_skipped() {
    let w = worker(true);
    let (s, _) = w.step(w.start(), TriageEvent::Begin(Some("/downloads/sub".to_string())));
    let (_, a) = w.step(s, TriageEvent::IsFile(false));
    assert_eq!(finish(a), TriageOutcome::NotAFile);
}

#[test]
fn hidden_and_temporary_files_are_skipped() {
    let w = worker(true);
    for p in ["/downloads/.hidden.pdf", "/downloads/file.tmp", "/downloads/movie.mkv.part"] {
        let (s, _) = w.step(w.start(), TriageEvent::Begin(Some(p.to_string())));
        let (_, a) = w.step(s, TriageEvent::IsFile(true));
        assert_eq!(finish(a), TriageOutcome::HiddenOrTemporary, "{}", p);
    }
}

#[test]
fn completed_files_are_not_reprocessed() {
    let w = worker(true);
    let (s, _) = w.step(w.start(), TriageEvent::Begin(Some("/downloads/a.pdf".to_string())));
    let (s, _) = w.step(s, TriageEvent::IsFile(true));
    let (_, a) = w.step(s, TriageEvent::Looked(Some("completed".to_string())));
    assert_eq!(finish(a), TriageOutcome::AlreadyCompleted);
}

#[test]
fn categorized_files_are_processed_again() {
    let w = worker(true);
    let (s, _) = w.step(w.start(), TriageEvent::Begin(Some("/downloads/a.pdf".to_string())));
    let (s, _) = w.step(s, TriageEvent::IsFile(true));
    let (_, a) = w.step(s, TriageEvent::Looked(Some("categorized".to_string())));
    assert!(matches!(a, TriageAction::ComputeHash { .. }));
}

#[test]
fn failures_end_processing() {
    let w = worker(false);
    let (s, _) = w.step(w.start(), TriageEvent::Begin(Some("/downloads/a.pdf".to_string())));
    let (s, _) = w.step(s, TriageEvent::IsFile(true));
    let (s, _) = w.step(s, TriageEvent::Looked(None));
    let (_, a) = w.step(s, TriageEvent::Hashed(None));
    assert_eq!(finish(a), TriageOutcome::HashFailed);

    let (s, _) = w.step(w.start(), TriageEvent::Begin(Some("/downloads/a.pdf".to_string())));
    let (s, _) = w.step(s, TriageEvent::IsFile(true));
    let (s, _) = w.step(s, TriageEvent::Looked(None));
    let (s, _) = w.step(s, TriageEvent::Hashed(Some("h".to_string())));
    let (_, a) = w.step(s, TriageEvent::Registered(None));
    assert_eq!(finish(a), TriageOutcome::RegisterFailed);
}

#[test]
fn unknown_extension_gets_no_category() {
    let w = worker(false);
    let (s, _) = w.step(w.start(), TriageEvent::Begin(Some("/downloads/a.xyz".to_string())));
    let (s, _) = w.step(s, TriageEvent::IsFile(true));
    let (s, _) = w.step(s, TriageEvent::Looked(None));
    let (s, _) = w.step(s, TriageEvent::Hashed(Some("h".to_string())));
    let (_, a) = w.step(s, TriageEvent::Registered(Some(1)));
    assert_eq!(finish(a), TriageOutcome::NoCategory);
}

#[test]
fn installers_queue_without_dry_run() {
    let w = worker(false);
    let (s, _) = w.step(w.start(), TriageEvent::Begin(Some("/downloads/setup.exe".to_string())));
    let (s, _) = w.step(s, TriageEvent::IsFile(true));
    let (s, _) = w.step(s, TriageEvent::Looked(None));
    let (s, _) = w.step(s, TriageEvent::Hashed(Some("h".to_string())));
    let (s, a) = w.step(s, TriageEvent::Registered(Some(3)));
    match &a {
        TriageAction::UpdateCategorization { category, destination, .. } => {
            assert_eq!(category, "Installers");
            assert_eq!(destination, "/downloads/Installers/setup.exe");
        }
        other => panic!("unexpected {:?}", other),
    }
    let (s, _) = w.step(s, TriageEvent::Categorized(true));
    let (_, a) = w.step(s, TriageEvent::Queued(true));
    assert_eq!(finish(a), TriageOutcome::Queued { dry_run: false });
}

#[test]
fn out_of_order_events_are_refused() {
    let w = worker(true);
    let (_, a) = w.step(w.start(), TriageEvent::IsFile(true));
    assert_eq!(finish(a), TriageOutcome::OutOfOrder);
}
