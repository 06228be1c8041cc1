//! The decisions of the triage worker for one file event.
//!
//! The worker is a state machine: the caller performs each action (a file
//! check, a registry query, hashing, an update) and hands back what came of
//! it as the next event, until the worker finishes.
use vstd::prelude::*;

use crate::config::rules::CategorizationRule;
use crate::config::settings::Config;
use crate::paths::{
    opt_str_view, opt_string_view, path_extension, path_extension_of, path_file_name, path_file_name_of,
    path_join, path_join_of,
};
use crate::text::{chars_of, ends_with_chars, str_eq};
use crate::triage::categorizer::{
    first_match, is_first_match, is_stable_priority_sort, lemma_categorized_as_first_match,
    Categorizer,
};

verus! {

/// Processes file events with the rules and Downloads folder of a
/// configuration.
pub struct TriageWorker {
    downloads_dir: String,
    dry_run: bool,
    categorizer: Categorizer,
}

/// What the decisions depend on: the Downloads folder, dry-run mode, and
/// the rules in the order in which they are tried.
pub struct WorkerView {
    pub downloads_dir: Seq<char>,
    pub dry_run: bool,
    pub rules: Seq<CategorizationRule>,
}

/// Where processing of one event stands.
#[derive(Debug)]
pub enum TriageState {
    /// Waiting for the event.
    Start,
    /// Asked whether `path` is a regular file.
    CheckingFile { path: String },
    /// Asked for the registry record of `path`.
    LookingUp { path: String },
    /// Asked for the hash of the file.
    Hashing { path: String },
    /// Asked to register the file under `original_name`.
    Registering { path: String, original_name: String },
    /// Asked to record the category of the file with id `file_id`.
    Categorizing { path: String, file_id: i64, destination: String },
    /// Asked to create the pending move.
    Queuing { path: String, destination: String },
    /// Done with this event.
    Finished,
}

/// What came of the last action.
#[derive(Debug)]
pub enum TriageEvent {
    /// The event arrived: its first path, if it had one in UTF-8.
    Begin(Option<String>),
    /// Whether the path is a regular file.
    IsFile(bool),
    /// The status of the file's registry record, if one was found.
    Looked(Option<String>),
    /// The file's hash, or `None` if it could not be computed.
    Hashed(Option<String>),
    /// The registry id of the file, or `None` if registering failed.
    Registered(Option<i64>),
    /// Whether recording the category succeeded.
    Categorized(bool),
    /// Whether creating the pending action succeeded.
    Queued(bool),
}

/// How processing of an event ended.
#[derive(Debug, PartialEq, Eq, Structural)]
pub enum TriageOutcome {
    /// The event carried no (UTF-8) path.
    NoPath,
    /// The path is not a regular file.
    NotAFile,
    /// The file is hidden or temporary.
    HiddenOrTemporary,
    /// The file's registry record is completed already.
    AlreadyCompleted,
    /// The file could not be hashed.
    HashFailed,
    /// The file could not be registered.
    RegisterFailed,
    /// No rule matches the file.
    NoCategory,
    /// The category could not be recorded.
    CategorizeFailed,
    /// The pending action could not be created.
    QueueFailed,
    /// A pending move was created; in dry-run mode it is only reported.
    Queued { dry_run: bool },
    /// The event did not answer the last action.
    OutOfOrder,
}

/// What the caller is asked to do next.
#[derive(Debug)]
pub enum TriageAction {
    CheckIsFile { path: String },
    LookupRecord { path: String },
    ComputeHash { path: String },
    UpsertRecord { path: String, hash: String, original_name: String },
    UpdateCategorization { file_id: i64, category: String, destination: String },
    CreatePendingAction { file_id: i64, action_type: String, source: String, destination: String },
    Finish(TriageOutcome),
}

/// The view of a state.
pub enum StateView {
    Start,
    CheckingFile(Seq<char>),
    LookingUp(Seq<char>),
    Hashing(Seq<char>),
    Registering(Seq<char>, Seq<char>),
    Categorizing(Seq<char>, i64, Seq<char>),
    Queuing(Seq<char>, Seq<char>),
    Finished,
}

/// The view of an event.
pub enum EventView {
    Begin(Option<Seq<char>>),
    IsFile(bool),
    Looked(Option<Seq<char>>),
    Hashed(Option<Seq<char>>),
    Registered(Option<i64>),
    Categorized(bool),
    Queued(bool),
}

/// The view of an action.
pub enum ActionView {
    CheckIsFile(Seq<char>),
    LookupRecord(Seq<char>),
    ComputeHash(Seq<char>),
    UpsertRecord(Seq<char>, Seq<char>, Seq<char>),
    UpdateCategorization(i64, Seq<char>, Seq<char>),
    CreatePendingAction(i64, Seq<char>, Seq<char>, Seq<char>),
    Finish(TriageOutcome),
}

impl View for TriageState {
    type V = StateView;

    open spec fn view(&self) -> StateView {
        match self {
            TriageState::Start => StateView::Start,
            TriageState::CheckingFile { path } => StateView::CheckingFile(path@),
            TriageState::LookingUp { path } => StateView::LookingUp(path@),
            TriageState::Hashing { path } => StateView::Hashing(path@),
            TriageState::Registering { path, original_name } => StateView::Registering(
                path@,
                original_name@,
            ),
            TriageState::Categorizing { path, file_id, destination } => StateView::Categorizing(
                path@,
                *file_id,
                destination@,
            ),
            TriageState::Queuing { path, destination } => StateView::Queuing(path@, destination@),
            TriageState::Finished => StateView::Finished,
        }
    }
}

impl View for TriageEvent {
    type V = EventView;

    open spec fn view(&self) -> EventView {
        match self {
            TriageEvent::Begin(p) => EventView::Begin(opt_string_view(*p)),
            TriageEvent::IsFile(b) => EventView::IsFile(*b),
            TriageEvent::Looked(s) => EventView::Looked(opt_string_view(*s)),
            TriageEvent::Hashed(h) => EventView::Hashed(opt_string_view(*h)),
            TriageEvent::Registered(id) => EventView::Registered(*id),
            TriageEvent::Categorized(b) => EventView::Categorized(*b),
            TriageEvent::Queued(b) => EventView::Queued(*b),
        }
    }
}

impl View for TriageAction {
    type V = ActionView;

    open spec fn view(&self) -> ActionView {
        match self {
            TriageAction::CheckIsFile { path } => ActionView::CheckIsFile(path@),
            TriageAction::LookupRecord { path } => ActionView::LookupRecord(path@),
            TriageAction::ComputeHash { path } => ActionView::ComputeHash(path@),
            TriageAction::UpsertRecord { path, hash, original_name } => ActionView::UpsertRecord(
                path@,
                hash@,
                original_name@,
            ),
            TriageAction::UpdateCategorization {
                file_id,
                category,
                destination,
            } => ActionView::UpdateCategorization(*file_id, category@, destination@),
            TriageAction::CreatePendingAction {
                file_id,
                action_type,
                source,
                destination,
            } => ActionView::CreatePendingAction(*file_id, action_type@, source@, destination@),
            TriageAction::Finish(o) => ActionView::Finish(*o),
        }
    }
}

impl View for TriageWorker {
    type V = WorkerView;

    closed spec fn view(&self) -> WorkerView {
        WorkerView {
            downloads_dir: self.downloads_dir@,
            dry_run: self.dry_run,
            rules: self.categorizer@,
        }
    }
}

/// A file name that is hidden (starts with `.`) or temporary (ends with
/// `.tmp` or `.part`); a path without file name is neither.
pub open spec fn is_hidden_or_temporary(name: Option<Seq<char>>) -> bool {
    match name {
        Some(n) => (n.len() > 0 && n[0] == '.') || ".tmp"@.is_suffix_of(n) || ".part"@.is_suffix_of(
            n,
        ),
        None => false,
    }
}

/// The name a file is registered under: its file name, or `unknown`.
pub open spec fn original_name_of(path: Seq<char>) -> Seq<char> {
    match path_file_name_of(path) {
        Some(n) => n,
        None => "unknown"@,
    }
}

/// Where a file named `name` goes under rule destination `rule_dest`.
pub open spec fn destination_of(
    downloads_dir: Seq<char>,
    rule_dest: Seq<char>,
    name: Seq<char>,
) -> Seq<char> {
    path_join_of(path_join_of(downloads_dir, rule_dest), name)
}

/// The next state and action, given the state and what came of the last
/// action.
pub open spec fn triage_next(w: WorkerView, s: StateView, e: EventView) -> (StateView, ActionView) {
    match (s, e) {
        (StateView::Start, EventView::Begin(None)) => (
            StateView::Finished,
            ActionView::Finish(TriageOutcome::NoPath),
        ),
        (StateView::Start, EventView::Begin(Some(p))) => (
            StateView::CheckingFile(p),
            ActionView::CheckIsFile(p),
        ),
        (StateView::CheckingFile(p), EventView::IsFile(is_file)) => if !is_file {
            (StateView::Finished, ActionView::Finish(TriageOutcome::NotAFile))
        } else if is_hidden_or_temporary(path_file_name_of(p)) {
            (StateView::Finished, ActionView::Finish(TriageOutcome::HiddenOrTemporary))
        } else {
            (StateView::LookingUp(p), ActionView::LookupRecord(p))
        },
        (StateView::LookingUp(p), EventView::Looked(status)) => if status == Some("completed"@) {
            (StateView::Finished, ActionView::Finish(TriageOutcome::AlreadyCompleted))
        } else {
            (StateView::Hashing(p), ActionView::ComputeHash(p))
        },
        (StateView::Hashing(p), EventView::Hashed(None)) => (
            StateView::Finished,
            ActionView::Finish(TriageOutcome::HashFailed),
        ),
        (StateView::Hashing(p), EventView::Hashed(Some(h))) => (
            StateView::Registering(p, original_name_of(p)),
            ActionView::UpsertRecord(p, h, original_name_of(p)),
        ),
        (StateView::Registering(p, n), EventView::Registered(None)) => (
            StateView::Finished,
            ActionView::Finish(TriageOutcome::RegisterFailed),
        ),
        (StateView::Registering(p, n), EventView::Registered(Some(id))) => match first_match(
            w.rules,
            path_extension_of(p),
        ) {
            None => (StateView::Finished, ActionView::Finish(TriageOutcome::NoCategory)),
            Some(k) => (
                StateView::Categorizing(
                    p,
                    id,
                    destination_of(w.downloads_dir, w.rules[k].destination@, n),
                ),
                ActionView::UpdateCategorization(
                    id,
                    w.rules[k].name@,
                    destination_of(w.downloads_dir, w.rules[k].destination@, n),
                ),
            ),
        },
        (StateView::Categorizing(p, id, d), EventView::Categorized(ok)) => if ok {
            (StateView::Queuing(p, d), ActionView::CreatePendingAction(id, "move"@, p, d))
        } else {
            (StateView::Finished, ActionView::Finish(TriageOutcome::CategorizeFailed))
        },
        (StateView::Queuing(p, d), EventView::Queued(ok)) => if ok {
            (StateView::Finished, ActionView::Finish(TriageOutcome::Queued { dry_run: w.dry_run }))
        } else {
            (StateView::Finished, ActionView::Finish(TriageOutcome::QueueFailed))
        },
        _ => (StateView::Finished, ActionView::Finish(TriageOutcome::OutOfOrder)),
    }
}

/// What every state that processing reaches records truly: past the file
/// check the file is neither hidden nor temporary; once hashed, it goes by
/// its original name; once categorised, the rule is the first that matches
/// and the destination lies in that rule's folder under the Downloads
/// folder.
pub open spec fn state_consistent(w: WorkerView, s: StateView) -> bool {
    match s {
        StateView::LookingUp(p) => !is_hidden_or_temporary(path_file_name_of(p)),
        StateView::Hashing(p) => !is_hidden_or_temporary(path_file_name_of(p)),
        StateView::Registering(p, n) => !is_hidden_or_temporary(path_file_name_of(p)) && n
            == original_name_of(p),
        StateView::Categorizing(p, id, d) => routed(w, p, d),
        StateView::Queuing(p, d) => routed(w, p, d),
        _ => true,
    }
}

/// The file at `p` is neither hidden nor temporary, a rule matches it, and
/// `d` is its place in the folder of the first such rule.
pub open spec fn routed(w: WorkerView, p: Seq<char>, d: Seq<char>) -> bool {
    &&& !is_hidden_or_temporary(path_file_name_of(p))
    &&& first_match(w.rules, path_extension_of(p)) matches Some(k) && d == destination_of(
        w.downloads_dir,
        w.rules[k].destination@,
        original_name_of(p),
    )
}

/// How many steps at most remain from a state before processing finishes.
pub open spec fn steps_left(s: StateView) -> nat {
    match s {
        StateView::Start => 7,
        StateView::CheckingFile(_) => 6,
        StateView::LookingUp(_) => 5,
        StateView::Hashing(_) => 4,
        StateView::Registering(_, _) => 3,
        StateView::Categorizing(_, _, _) => 2,
        StateView::Queuing(_, _) => 1,
        StateView::Finished => 0,
    }
}

/// Law: every step keeps the states consistent, so whatever the events,
/// the states that processing goes through are consistent.
pub proof fn lemma_step_keeps_consistency(w: WorkerView, s: StateView, e: EventView)
    requires
        state_consistent(w, s),
    ensures
        state_consistent(w, triage_next(w, s, e).0),
{
}

/// Law: processing of one event finishes: each step either finishes or
/// gets closer to the end, so at most seven steps are taken.
pub proof fn lemma_step_progresses(w: WorkerView, s: StateView, e: EventView)
    ensures
        triage_next(w, s, e).0 is Finished || steps_left(triage_next(w, s, e).0) < steps_left(s),
        (triage_next(w, s, e).0 is Finished) <==> (triage_next(w, s, e).1 is Finish),
{
}

/// Law: a pending action is only ever a move of the file being processed,
/// from a consistent state: the file is neither hidden nor temporary, a
/// rule matches it, and it goes to `<Downloads>/<folder of the first
/// matching rule>/<its original name>`.
pub proof fn lemma_pending_action_is_routed_move(
    w: WorkerView,
    s: StateView,
    e: EventView,
    id: i64,
    kind: Seq<char>,
    source: Seq<char>,
    dest: Seq<char>,
)
    requires
        state_consistent(w, s),
        triage_next(w, s, e).1 == ActionView::CreatePendingAction(id, kind, source, dest),
    ensures
        kind == "move"@,
        routed(w, source, dest),
        s matches StateView::Categorizing(p, i, d) && p == source && i == id && d == dest,
{
}

/// Law: when processing asks to record a categorisation, it does so for the
/// file just registered, under the id the registry gave it: the category
/// recorded is the name of the first rule, in the order tried, that matches
/// the file's extension, and the destination is that rule's folder under the
/// Downloads folder, with the file's original name.
pub proof fn lemma_categorization_records_rule_name(
    w: WorkerView,
    s: StateView,
    e: EventView,
    id: i64,
    category: Seq<char>,
    dest: Seq<char>,
)
    requires
        state_consistent(w, s),
        triage_next(w, s, e).1 == ActionView::UpdateCategorization(id, category, dest),
    ensures
        s matches StateView::Registering(p, n) && e == EventView::Registered(Some(id)) && exists|
            k: int,
        |
            #![trigger w.rules[k]]
            is_first_match(w.rules, path_extension_of(p), k) && category == w.rules[k].name@ && dest
                == path_join_of(
                path_join_of(w.downloads_dir, w.rules[k].destination@),
                original_name_of(p),
            ),
{
    if let StateView::Registering(p, n) = s {
        if let Some(k) = first_match(w.rules, path_extension_of(p)) {
            assert(is_first_match(w.rules, path_extension_of(p), k));
        }
    }
}

/// Law: a file whose registry record is completed is not processed again:
/// from a lookup, the answer `completed` finishes processing at once.
pub proof fn lemma_completed_file_not_reprocessed(w: WorkerView, p: Seq<char>)
    ensures
        triage_next(w, StateView::LookingUp(p), EventView::Looked(Some("completed"@)))
            == (StateView::Finished, ActionView::Finish(TriageOutcome::AlreadyCompleted)),
{
}

/// Whether the file name `name` is hidden or temporary.
fn hidden_or_temporary(name: Option<&str>) -> (b: bool)
    ensures
        b == is_hidden_or_temporary(opt_str_view(name)),
{
    match name {
        None => false,
        Some(n) => {
            let c = chars_of(n);
            if c.len() > 0 && c[0] == '.' {
                return true;
            }
            let tmp = chars_of(".tmp");
            let part = chars_of(".part");
            ends_with_chars(&c, &tmp) || ends_with_chars(&c, &part)
        },
    }
}

impl TriageWorker {
    /// A worker for the rules, Downloads folder and dry-run mode of `config`.
    pub fn new(config: Config) -> (w: Self)
        ensures
            w@.downloads_dir == config.downloads_dir@,
            w@.dry_run == config.dry_run,
            is_stable_priority_sort(config.rules@, w@.rules),
    {
        let Config { downloads_dir, dry_run, rules, .. } = config;
        TriageWorker { downloads_dir, dry_run, categorizer: Categorizer::new(rules) }
    }

    /// The state in which processing of an event begins.
    pub fn start(&self) -> (s: TriageState)
        ensures
            s@ == StateView::Start,
    {
        TriageState::Start
    }

    /// Processes what came of the last action: the next state and action.
    pub fn step(&self, state: TriageState, event: TriageEvent) -> (r: (TriageState, TriageAction))
        ensures
            (r.0@, r.1@) == triage_next(self@, state@, event@),
    {
        match (state, event) {
            (TriageState::Start, TriageEvent::Begin(None)) => (
                TriageState::Finished,
                TriageAction::Finish(TriageOutcome::NoPath),
            ),
            (TriageState::Start, TriageEvent::Begin(Some(p))) => {
                let q = p.clone();
                (TriageState::CheckingFile { path: p }, TriageAction::CheckIsFile { path: q })
            },
            (TriageState::CheckingFile { path }, TriageEvent::IsFile(is_file)) => {
                if !is_file {
                    (TriageState::Finished, TriageAction::Finish(TriageOutcome::NotAFile))
                } else if hidden_or_temporary(path_file_name(path.as_str())) {
                    (TriageState::Finished, TriageAction::Finish(TriageOutcome::HiddenOrTemporary))
                } else {
                    let q = path.clone();
                    (TriageState::LookingUp { path }, TriageAction::LookupRecord { path: q })
                }
            },
            (TriageState::LookingUp { path }, TriageEvent::Looked(status)) => {
                let completed = match &status {
                    Some(s) => str_eq(s.as_str(), "completed"),
                    None => false,
                };
                if completed {
                    (TriageState::Finished, TriageAction::Finish(TriageOutcome::AlreadyCompleted))
                } else {
                    let q = path.clone();
                    (TriageState::Hashing { path }, TriageAction::ComputeHash { path: q })
                }
            },
            (TriageState::Hashing { path }, TriageEvent::Hashed(hash)) => match hash {
                None => (TriageState::Finished, TriageAction::Finish(TriageOutcome::HashFailed)),
                Some(h) => {
                    let name = match path_file_name(path.as_str()) {
                        Some(n) => n.to_owned(),
                        None => "unknown".to_owned(),
                    };
                    let q = path.clone();
                    let n2 = name.clone();
                    (
                        TriageState::Registering { path, original_name: name },
                        TriageAction::UpsertRecord { path: q, hash: h, original_name: n2 },
                    )
                },
            },
            (TriageState::Registering { path, original_name }, TriageEvent::Registered(id)) => {
                match id {
                    None => (
                        TriageState::Finished,
                        TriageAction::Finish(TriageOutcome::RegisterFailed),
                    ),
                    Some(file_id) => {
                        let found = self.categorizer.categorize_extension(
                            path_extension(path.as_str()),
                        );
                        proof {
                            lemma_categorized_as_first_match(
                                self.categorizer@,
                                path_extension_of(path@),
                                found,
                            );
                        }
                        match found {
                            None => (
                                TriageState::Finished,
                                TriageAction::Finish(TriageOutcome::NoCategory),
                            ),
                            Some(rule) => {
                                let folder = path_join(
                                    self.downloads_dir.as_str(),
                                    rule.destination.as_str(),
                                );
                                let destination = path_join(
                                    folder.as_str(),
                                    original_name.as_str(),
                                );
                                let d2 = destination.clone();
                                (
                                    TriageState::Categorizing { path, file_id, destination },
                                    TriageAction::UpdateCategorization {
                                        file_id,
                                        category: rule.name.clone(),
                                        destination: d2,
                                    },
                                )
                            },
                        }
                    },
                }
            },
            (
                TriageState::Categorizing { path, file_id, destination },
                TriageEvent::Categorized(ok),
            ) => {
                if ok {
                    let source = path.clone();
                    let d2 = destination.clone();
                    (
                        TriageState::Queuing { path, destination },
                        TriageAction::CreatePendingAction {
                            file_id,
                            action_type: "move".to_owned(),
                            source,
                            destination: d2,
                        },
                    )
                } else {
                    (TriageState::Finished, TriageAction::Finish(TriageOutcome::CategorizeFailed))
                }
            },
            (TriageState::Queuing { .. }, TriageEvent::Queued(ok)) => {
                if ok {
                    (
                        TriageState::Finished,
                        TriageAction::Finish(TriageOutcome::Queued { dry_run: self.dry_run }),
                    )
                } else {
                    (TriageState::Finished, TriageAction::Finish(TriageOutcome::QueueFailed))
                }
            },
            _ => (TriageState::Finished, TriageAction::Finish(TriageOutcome::OutOfOrder)),
        }
    }
}

} // verus!
