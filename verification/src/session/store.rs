//! Single writes to the session store.
//!
//! Every write opens the store anew, so that the tasks that capture a process's two
//! streams share no connection. A write is a [`StoreTask`]: the driver opens the store at
//! [`StoreTask::db_path`], reports how that went, performs [`StoreTask::write`] where the
//! task asks for it, and reports again.

use std::path::PathBuf;

use vstd::prelude::*;

use crate::session::{OutputStream, SessionState};

verus! {

/// `std::path::PathBuf`: a file's place, carried through unread.
#[verifier::external_type_specification]
#[verifier::external_body]
pub struct ExPathBuf(std::path::PathBuf);

/// What is written once the store is open.
pub enum StoreWrite<'a> {
    AppendLine { session_id: &'a str, stream: OutputStream, line: &'a str },
    SetState { session_id: &'a str, state: SessionState },
}

/// How far a write has come, with the error of the step that failed where one did.
pub enum StoreStage<E> {
    /// The store is to be opened.
    Opening,
    /// The store is open, and the write is to be performed on it.
    Writing,
    /// Nothing is left to do.
    Finished(Result<(), E>),
}

/// One write to the store at `db_path`.
pub struct StoreTask<'a, E> {
    pub db_path: &'a PathBuf,
    pub write: StoreWrite<'a>,
    pub stage: StoreStage<E>,
}

/// The stage that follows `stage` when the step it asks for ended with `reply`.
pub open spec fn stage_after<E>(stage: StoreStage<E>, reply: Result<(), E>) -> StoreStage<E> {
    match (stage, reply) {
        (StoreStage::Opening, Ok(_)) => StoreStage::Writing,
        (StoreStage::Opening, Err(error)) => StoreStage::Finished(Err(error)),
        (StoreStage::Writing, outcome) => StoreStage::Finished(outcome),
        (StoreStage::Finished(outcome), _) => StoreStage::Finished(outcome),
    }
}

/// The task that opens the store at `db_path` and appends one line to a session's output.
pub fn append_output_line<'a, E>(
    db_path: &'a PathBuf,
    session_id: &'a str,
    stream: OutputStream,
    line: &'a str,
) -> (task: StoreTask<'a, E>)
    ensures
        task.db_path == db_path,
        task.write == (StoreWrite::AppendLine { session_id, stream, line }),
        task.stage == StoreStage::<E>::Opening,
{
    StoreTask {
        db_path,
        write: StoreWrite::AppendLine { session_id, stream, line },
        stage: StoreStage::Opening,
    }
}

/// The task that opens the store at `db_path` and records a session's new state.
pub fn update_session_state<'a, E>(
    db_path: &'a PathBuf,
    session_id: &'a str,
    state: SessionState,
) -> (task: StoreTask<'a, E>)
    ensures
        task.db_path == db_path,
        task.write == (StoreWrite::SetState { session_id, state }),
        task.stage == StoreStage::<E>::Opening,
{
    StoreTask {
        db_path,
        write: StoreWrite::SetState { session_id, state },
        stage: StoreStage::Opening,
    }
}

impl<'a, E> StoreTask<'a, E> {
    /// Takes note of how the step that the task asked for went.
    pub fn answer(self, reply: Result<(), E>) -> (next: StoreTask<'a, E>)
        ensures
            next.db_path == self.db_path,
            next.write == self.write,
            next.stage == stage_after(self.stage, reply),
    {
        let stage = match self.stage {
            StoreStage::Opening => match reply {
                Ok(_) => StoreStage::Writing,
                Err(error) => StoreStage::Finished(Err(error)),
            },
            StoreStage::Writing => StoreStage::Finished(reply),
            StoreStage::Finished(outcome) => StoreStage::Finished(outcome),
        };
        StoreTask { db_path: self.db_path, write: self.write, stage }
    }
}

/// A store that does not open is never written to and its error is the task's outcome; one
/// that opens is written to once, and the write's outcome is the task's.
pub proof fn store_task_ends_with_first_failure<E>(opened: Result<(), E>, written: Result<(), E>)
    ensures
        opened matches Err(error) ==> stage_after(StoreStage::Opening, opened)
            == StoreStage::<E>::Finished(Err(error)),
        opened is Ok ==> {
            &&& stage_after(StoreStage::Opening, opened) == StoreStage::<E>::Writing
            &&& stage_after(stage_after(StoreStage::Opening, opened), written)
                == StoreStage::<E>::Finished(written)
        },
{
}

} // verus!
