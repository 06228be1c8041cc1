//! The decisions of a review run that carries out pending moves: what to do
//! for each pending action, and the tally of moves made and failed.
use vstd::prelude::*;

use crate::paths::{path_parent, path_parent_of};
use crate::storage::models::PendingAction;

verus! {

/// How many moves succeeded and how many failed.
#[derive(Debug)]
pub struct ReviewTally {
    pub succeeded: i32,
    pub failed: i32,
}

/// Where carrying out one pending action stands.
#[derive(Debug, PartialEq, Eq, Structural)]
pub enum MoveState {
    /// Not begun.
    Start,
    /// Asked to create the destination's folder.
    MakingDir,
    /// Asked to rename the file to its destination.
    Moving,
    /// Asked to mark the action executed.
    Marking,
    /// Asked to mark the file's registry record completed.
    Completing,
    /// Done with this action.
    Done,
}

/// What came of the last request.
#[derive(Debug, PartialEq, Eq, Structural)]
pub enum MoveEvent {
    /// Carrying out the action begins.
    Begin,
    /// Whether the destination's folder exists now.
    DirMade(bool),
    /// Whether the rename succeeded.
    Moved(bool),
    /// Whether the action was marked executed.
    Marked(bool),
    /// The registry record was updated, or not (either way it is ignored).
    Completed,
}

/// How carrying out one action ended.
#[derive(Debug, PartialEq, Eq, Structural)]
pub enum MoveOutcome {
    /// The file was moved and the action marked executed.
    Moved,
    /// The destination's folder could not be created.
    DirFailed,
    /// The rename failed.
    MoveFailed,
    /// The action could not be marked executed: the run stops with an error.
    MarkFailed,
    /// The event did not answer the last request.
    OutOfOrder,
}

/// What the caller is asked to do next.
#[derive(Debug)]
pub enum MoveRequest {
    MakeDir { path: String },
    Rename { source: String, destination: String },
    MarkExecuted { action_id: i64 },
    MarkCompleted { file_id: i64 },
    Finish(MoveOutcome),
}

/// The view of a request.
pub enum MoveRequestView {
    MakeDir(Seq<char>),
    Rename(Seq<char>, Seq<char>),
    MarkExecuted(i64),
    MarkCompleted(i64),
    Finish(MoveOutcome),
}

impl View for MoveRequest {
    type V = MoveRequestView;

    open spec fn view(&self) -> MoveRequestView {
        match self {
            MoveRequest::MakeDir { path } => MoveRequestView::MakeDir(path@),
            MoveRequest::Rename { source, destination } => MoveRequestView::Rename(
                source@,
                destination@,
            ),
            MoveRequest::MarkExecuted { action_id } => MoveRequestView::MarkExecuted(*action_id),
            MoveRequest::MarkCompleted { file_id } => MoveRequestView::MarkCompleted(*file_id),
            MoveRequest::Finish(o) => MoveRequestView::Finish(*o),
        }
    }
}

/// The next state and request for carrying out `action`.
pub open spec fn move_next(action: PendingAction, s: MoveState, e: MoveEvent) -> (
    MoveState,
    MoveRequestView,
) {
    let rename = MoveRequestView::Rename(action.source_path@, action.destination_path@);
    match (s, e) {
        (MoveState::Start, MoveEvent::Begin) => match path_parent_of(action.destination_path@) {
            Some(p) => (MoveState::MakingDir, MoveRequestView::MakeDir(p)),
            None => (MoveState::Moving, rename),
        },
        (MoveState::MakingDir, MoveEvent::DirMade(ok)) => if ok {
            (MoveState::Moving, rename)
        } else {
            (MoveState::Done, MoveRequestView::Finish(MoveOutcome::DirFailed))
        },
        (MoveState::Moving, MoveEvent::Moved(ok)) => if ok {
            (MoveState::Marking, MoveRequestView::MarkExecuted(action.id))
        } else {
            (MoveState::Done, MoveRequestView::Finish(MoveOutcome::MoveFailed))
        },
        (MoveState::Marking, MoveEvent::Marked(ok)) => if ok {
            (MoveState::Completing, MoveRequestView::MarkCompleted(action.file_id))
        } else {
            (MoveState::Done, MoveRequestView::Finish(MoveOutcome::MarkFailed))
        },
        (MoveState::Completing, MoveEvent::Completed) => (
            MoveState::Done,
            MoveRequestView::Finish(MoveOutcome::Moved),
        ),
        _ => (MoveState::Done, MoveRequestView::Finish(MoveOutcome::OutOfOrder)),
    }
}

/// Law: an action is only marked executed, and its file only marked
/// completed, after the rename succeeded; a failed folder or rename ends
/// the action unmarked.
pub proof fn lemma_marked_only_after_move(action: PendingAction, s: MoveState, e: MoveEvent)
    ensures
        move_next(action, s, e).1 is MarkExecuted ==> s == MoveState::Moving && e
            == MoveEvent::Moved(true),
        move_next(action, s, e).1 is MarkCompleted ==> s == MoveState::Marking && e
            == MoveEvent::Marked(true),
        move_next(action, s, e).1 == MoveRequestView::Finish(MoveOutcome::Moved) ==> s
            == MoveState::Completing,
{
}

impl ReviewTally {
    /// No move made yet.
    pub fn new() -> (t: Self)
        ensures
            t.succeeded == 0,
            t.failed == 0,
    {
        ReviewTally { succeeded: 0, failed: 0 }
    }

    /// Counts one move: a success when `moved`, a failure otherwise (the
    /// destination folder could not be made, or the rename failed).
    pub fn record(&mut self, moved: bool)
        requires
            moved ==> old(self).succeeded < i32::MAX,
            !moved ==> old(self).failed < i32::MAX,
        ensures
            moved ==> final(self).succeeded == old(self).succeeded + 1 && final(self).failed == old(
                self,
            ).failed,
            !moved ==> final(self).failed == old(self).failed + 1 && final(self).succeeded == old(
                self,
            ).succeeded,
    {
        if moved {
            self.succeeded = self.succeeded + 1;
        } else {
            self.failed = self.failed + 1;
        }
    }

}

/// The next request for carrying out `action`, given the state and what
/// came of the last request.
pub fn move_step(action: &PendingAction, state: MoveState, event: MoveEvent) -> (r: (
    MoveState,
    MoveRequest,
))
    ensures
        (r.0, r.1@) == move_next(*action, state, event),
{
    match (state, event) {
        (MoveState::Start, MoveEvent::Begin) => match path_parent(
            action.destination_path.as_str(),
        ) {
            Some(p) => (MoveState::MakingDir, MoveRequest::MakeDir { path: p.to_owned() }),
            None => (
                MoveState::Moving,
                MoveRequest::Rename {
                    source: action.source_path.clone(),
                    destination: action.destination_path.clone(),
                },
            ),
        },
        (MoveState::MakingDir, MoveEvent::DirMade(ok)) => {
            if ok {
                (
                    MoveState::Moving,
                    MoveRequest::Rename {
                        source: action.source_path.clone(),
                        destination: action.destination_path.clone(),
                    },
                )
            } else {
                (MoveState::Done, MoveRequest::Finish(MoveOutcome::DirFailed))
            }
        },
        (MoveState::Moving, MoveEvent::Moved(ok)) => {
            if ok {
                (MoveState::Marking, MoveRequest::MarkExecuted { action_id: action.id })
            } else {
                (MoveState::Done, MoveRequest::Finish(MoveOutcome::MoveFailed))
            }
        },
        (MoveState::Marking, MoveEvent::Marked(ok)) => {
            if ok {
                (MoveState::Completing, MoveRequest::MarkCompleted { file_id: action.file_id })
            } else {
                (MoveState::Done, MoveRequest::Finish(MoveOutcome::MarkFailed))
            }
        },
        (MoveState::Completing, MoveEvent::Completed) => (
            MoveState::Done,
            MoveRequest::Finish(MoveOutcome::Moved),
        ),
        _ => (MoveState::Done, MoveRequest::Finish(MoveOutcome::OutOfOrder)),
    }
}

} // verus!
