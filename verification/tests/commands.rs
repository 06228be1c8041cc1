use dtriage::cli::config::{api_key_service, confirms_reset};
use dtriage::cli::review::ReviewTally;
use dtriage::config::{Config, LlmConfig};
use dtriage::security::keyring::{
    delete_api_key, outcome_at, retrieve_api_key, service_name, store_api_key, ApiKeyError,
    KeyringFailure, KeyringStep,
};
use dtriage::triage::llm::{LlmError, LlmReply};
use dtriage::triage::LlmClient;

#[test]
fn api_key_service_defaults_to_openai() {
    let mut c = Config::default_for_test("/d");
    assert_eq!(api_key_service(&c), "openai");
    c.llm = Some(LlmConfig {
        api_key_service: "anthropic".to_string(),
        model: "m".to_string(),
        api_base: None,
        enabled: true,
    });
    assert_eq!(api_key_service(&c), "anthropic");
    assert_eq!(service_name(), "downloads-triage");
}

#[test]
fn reset_needs_a_yes() {
    assert!(confirms_reset("y\n"));
    assert!(confirms_reset("  Y "));
    assert!(!confirms_reset("yes"));
    assert!(!confirms_reset("\n"));
    assert!(!confirms_reset("n"));
}

#[test]
fn review_tally_counts() {
    let mut t = ReviewTally::new();
    t.record(true);
    t.record(false);
    t.record(true);
    assert_eq!((t.succeeded, t.failed), (2, 1));
}

#[test]
fn api_key_error_messages() {
    let f = || KeyringFailure { detail: "x".to_string() };
    assert_eq!(ApiKeyError::EntryUnavailable(f()).message(), "Failed to create keyring entry");
    assert_eq!(ApiKeyError::NotStored(f()).message(), "Failed to store API key");
    assert_eq!(
        ApiKeyError::NotRetrieved(f()).message(),
        "Failed to retrieve API key (not set or inaccessible)"
    );
    assert_eq!(ApiKeyError::NotDeleted(f()).message(), "Failed to delete API key");
}

#[test]
fn llm_client_defaults_and_request() {
    let c = LlmClient::new("gpt-4".to_string(), "openai".to_string(), None);
    assert_eq!(c.chat_url(), "https://api.openai.com/v1/chat/completions");
    assert_eq!(c.model(), "gpt-4");
    assert_eq!(c.api_key_service(), "openai");
    let c = LlmClient::new("llama".to_string(), "local".to_string(), Some("http://localhost:11434/v1".to_string()));
    assert_eq!(c.chat_url(), "http://localhost:11434/v1/chat/completions");
    let req = c.chat_request("IMG_001.jpg", "a photo");
    assert_eq!(req.model, "llama");
    assert_eq!(req.max_tokens, 50);
    assert_eq!(req.messages.len(), 1);
    assert_eq!(req.messages[0].role, "user");
    assert_eq!(
        req.messages[0].content,
        "You are a file organization assistant. Suggest a clean, descriptive filename for a downloaded file.\n\n\
         Original name: IMG_001.jpg\n\
         Context: a photo\n\n\
         Respond with ONLY the suggested filename (no explanation, no quotes)."
    );
}

#[test]
fn llm_suggestion_from_reply() {
    assert_eq!(LlmClient::suggestion("a.pdf", LlmReply::NoApiKey).unwrap(), "a.pdf");
    assert_eq!(LlmClient::suggestion(" a.pdf ", LlmReply::Rejected).unwrap(), " a.pdf ");
    assert_eq!(LlmClient::suggestion("a.pdf", LlmReply::SendFailed).unwrap_err(), LlmError::RequestFailed);
    assert_eq!(
        LlmClient::suggestion("a.pdf", LlmReply::Unreadable).unwrap_err(),
        LlmError::UnreadableResponse
    );
    assert_eq!(
        LlmClient::suggestion("a.pdf", LlmReply::Answered(Some("  invoice-2024.pdf\n".to_string()))).unwrap(),
        "invoice-2024.pdf"
    );
    assert_eq!(LlmClient::suggestion(" a.pdf ", LlmReply::Answered(None)).unwrap(), "a.pdf");
}


use dtriage::cli::review::{move_step, MoveEvent, MoveOutcome, MoveRequest, MoveState};
use dtriage::storage::PendingAction;

fn action(dest: &str) -> PendingAction {
    PendingAction {
        id: 4,
        file_id: 9,
        action_type: "move".to_string(),
        source_path: "/test/file.pdf".to_string(),
        destination_path: dest.to_string(),
        executed: false,
        created_at: 0,
    }
}

#[test]
fn move_runs_through_folder_rename_and_marks() {
    let a = action("/test/Documents/file.pdf");
    let (s, r) = move_step(&a, MoveState::Start, MoveEvent::Begin);
    assert!(matches!(r, MoveRequest::MakeDir { ref path } if path == "/test/Documents"));
    let (s, r) = move_step(&a, s, MoveEvent::DirMade(true));
    assert!(matches!(r, MoveRequest::Rename { ref source, ref destination }
        if source == "/test/file.pdf" && destination == "/test/Documents/file.pdf"));
    let (s, r) = move_step(&a, s, MoveEvent::Moved(true));
    assert!(matches!(r, MoveRequest::MarkExecuted { action_id: 4 }));
    let (s, r) = move_step(&a, s, MoveEvent::Marked(true));
    assert!(matches!(r, MoveRequest::MarkCompleted { file_id: 9 }));
    let (s, r) = move_step(&a, s, MoveEvent::Completed);
    assert!(matches!(r, MoveRequest::Finish(MoveOutcome::Moved)));
    assert_eq!(s, MoveState::Done);
}

#[test]
fn move_failures_end_the_action() {
    let a = action("/test/Documents/file.pdf");
    let (s, _) = move_step(&a, MoveState::Start, MoveEvent::Begin);
    let (_, r) = move_step(&a, s, MoveEvent::DirMade(false));
    assert!(matches!(r, MoveRequest::Finish(MoveOutcome::DirFailed)));
    let (_, r) = move_step(&a, MoveState::Moving, MoveEvent::Moved(false));
    assert!(matches!(r, MoveRequest::Finish(MoveOutcome::MoveFailed)));
    let (_, r) = move_step(&a, MoveState::Marking, MoveEvent::Marked(false));
    assert!(matches!(r, MoveRequest::Finish(MoveOutcome::MarkFailed)));
    let (_, r) = move_step(&a, MoveState::Start, MoveEvent::Completed);
    assert!(matches!(r, MoveRequest::Finish(MoveOutcome::OutOfOrder)));
}

#[test]
fn destination_without_parent_is_renamed_directly() {
    let a = action("/");
    let (s, r) = move_step(&a, MoveState::Start, MoveEvent::Begin);
    assert_eq!(s, MoveState::Moving);
    assert!(matches!(r, MoveRequest::Rename { .. }));
}

#[test]
fn keyring_answers_become_step_errors() {
    let f = |d: &str| KeyringFailure { detail: d.to_string() };
    assert_eq!(outcome_at(KeyringStep::Retrieve, Ok::<String, KeyringFailure>("k".to_string())).unwrap(), "k");
    match outcome_at::<()>(KeyringStep::OpenEntry, Err(f("a"))) {
        Err(ApiKeyError::EntryUnavailable(x)) => assert_eq!(x.detail, "a"),
        other => panic!("unexpected {:?}", other),
    }
    assert!(matches!(outcome_at::<()>(KeyringStep::Store, Err(f("b"))), Err(ApiKeyError::NotStored(_))));
    assert!(matches!(outcome_at::<String>(KeyringStep::Retrieve, Err(f("c"))), Err(ApiKeyError::NotRetrieved(_))));
    assert!(matches!(outcome_at::<()>(KeyringStep::Delete, Err(f("d"))), Err(ApiKeyError::NotDeleted(_))));
}

#[test]
fn stored_key_goes_to_the_application_entry() {
    let user = "dtriage-contract-check";
    if let Ok(stored) = store_api_key(user, "sk-not-a-real-key") {
        assert_eq!(stored.location.service, "downloads-triage");
        assert_eq!(stored.location.user, user);
        assert_eq!(stored.key, "sk-not-a-real-key");
        if let Ok(read) = retrieve_api_key(user) {
            assert_eq!(read.location.service, "downloads-triage");
            assert_eq!(read.location.user, user);
        }
        if let Ok(deleted) = delete_api_key(user) {
            assert_eq!(deleted.service, "downloads-triage");
            assert_eq!(deleted.user, user);
        }
    }
}
