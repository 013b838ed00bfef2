//! Running a session's command: start the process, capture what it prints, record how it
//! went.
//!
//! The work itself is done by a driver. [`Capture`] decides what is to be done next
//! ([`Capture::command`]) and takes note of how it went ([`Capture::answer`]).

use std::path::PathBuf;

use vstd::prelude::*;

use crate::session::{OutputStream, SessionState};
use crate::session::store::{update_session_state, StoreStage, StoreTask, StoreWrite};

verus! {

/// Why a capture failed.
#[derive(Debug)]
pub enum CaptureError<E> {
    /// The process could not be started.
    Start(E),
    /// The process has no standard output to read from.
    NoStdout,
    /// The process has no standard error to read from.
    NoStderr,
    /// A later step failed.
    Step(E),
}

/// What a capture is waiting for, with what it has to remember until it ends.
#[derive(Debug)]
pub enum CapturePhase<S, E> {
    Starting,
    MarkingRunning,
    TakingStdout,
    TakingStderr,
    SpawningStdout,
    SpawningStderr,
    Waiting,
    JoiningStdout { status: S, success: bool },
    JoiningStderr { status: S, success: bool },
    MarkingEnded { status: S, success: bool },
    MarkingFailed(CaptureError<E>),
    Finished(Result<S, CaptureError<E>>),
}

/// What the driver is to do next.
#[derive(Debug, Clone, Copy, PartialEq, Eq, Structural)]
pub enum CaptureCommand {
    /// Start the process with both output streams piped.
    Start,
    /// Record the session's state in the store.
    SetState(SessionState),
    /// Take the reading end of a stream from the process.
    TakePipe(OutputStream),
    /// Begin to capture a stream, in the background.
    SpawnCapture(OutputStream),
    /// Wait until the process has exited.
    Wait,
    /// Wait until the capture of a stream has ended.
    JoinCapture(OutputStream),
    /// Nothing: the outcome is known.
    Return,
}

/// How a command went.
#[derive(Debug)]
pub enum CaptureReply<S, E> {
    Done,
    /// The pipe that was to be taken is not there.
    Absent,
    /// The process exited. `success` says whether `status` stands for success.
    Exited { status: S, success: bool },
    Failed(E),
}

/// The run of one session's command.
#[derive(Debug)]
pub struct Capture<'a, S, E> {
    pub db_path: &'a PathBuf,
    pub session_id: &'a str,
    pub phase: CapturePhase<S, E>,
}

/// The state that a session ends in when its process exited.
pub open spec fn ended_state(success: bool) -> SessionState {
    if success {
        SessionState::Completed
    } else {
        SessionState::Failed
    }
}

impl<S, E> CapturePhase<S, E> {
    /// What this phase asks the driver to do.
    pub open spec fn command(self) -> CaptureCommand {
        match self {
            CapturePhase::Starting => CaptureCommand::Start,
            CapturePhase::MarkingRunning => CaptureCommand::SetState(SessionState::Running),
            CapturePhase::TakingStdout => CaptureCommand::TakePipe(OutputStream::Stdout),
            CapturePhase::TakingStderr => CaptureCommand::TakePipe(OutputStream::Stderr),
            CapturePhase::SpawningStdout => CaptureCommand::SpawnCapture(OutputStream::Stdout),
            CapturePhase::SpawningStderr => CaptureCommand::SpawnCapture(OutputStream::Stderr),
            CapturePhase::Waiting => CaptureCommand::Wait,
            CapturePhase::JoiningStdout { .. } => CaptureCommand::JoinCapture(OutputStream::Stdout),
            CapturePhase::JoiningStderr { .. } => CaptureCommand::JoinCapture(OutputStream::Stderr),
            CapturePhase::MarkingEnded { success, .. } => CaptureCommand::SetState(
                ended_state(success),
            ),
            CapturePhase::MarkingFailed(_) => CaptureCommand::SetState(SessionState::Failed),
            CapturePhase::Finished(_) => CaptureCommand::Return,
        }
    }

    /// Whether `reply` is one that the command of this phase can end with.
    pub open spec fn accepts(self, reply: CaptureReply<S, E>) -> bool {
        match self.command() {
            CaptureCommand::Start => reply is Done || reply is Failed,
            CaptureCommand::SetState(_) => reply is Done || reply is Failed,
            CaptureCommand::TakePipe(_) => reply is Done || reply is Absent,
            CaptureCommand::SpawnCapture(_) => reply is Done,
            CaptureCommand::Wait => reply is Exited || reply is Failed,
            CaptureCommand::JoinCapture(_) => reply is Done || reply is Failed,
            CaptureCommand::Return => false,
        }
    }

    /// The error that `reply` reports in this phase, where it reports one.
    pub open spec fn failure(self, reply: CaptureReply<S, E>) -> Option<CaptureError<E>> {
        match (self, reply) {
            (CapturePhase::Starting, CaptureReply::Failed(error)) => Some(
                CaptureError::Start(error),
            ),
            (CapturePhase::TakingStdout, CaptureReply::Absent) => Some(CaptureError::NoStdout),
            (CapturePhase::TakingStderr, CaptureReply::Absent) => Some(CaptureError::NoStderr),
            (_, CaptureReply::Failed(error)) => Some(CaptureError::Step(error)),
            _ => None,
        }
    }

    /// The phase that follows when the command succeeded.
    pub open spec fn succeeded(self, reply: CaptureReply<S, E>) -> CapturePhase<S, E> {
        match (self, reply) {
            (CapturePhase::Starting, _) => CapturePhase::MarkingRunning,
            (CapturePhase::MarkingRunning, _) => CapturePhase::TakingStdout,
            (CapturePhase::TakingStdout, _) => CapturePhase::TakingStderr,
            (CapturePhase::TakingStderr, _) => CapturePhase::SpawningStdout,
            (CapturePhase::SpawningStdout, _) => CapturePhase::SpawningStderr,
            (CapturePhase::SpawningStderr, _) => CapturePhase::Waiting,
            (CapturePhase::Waiting, CaptureReply::Exited { status, success }) =>
                CapturePhase::JoiningStdout { status, success },
            (CapturePhase::JoiningStdout { status, success }, _) => CapturePhase::JoiningStderr {
                status,
                success,
            },
            (CapturePhase::JoiningStderr { status, success }, _) => CapturePhase::MarkingEnded {
                status,
                success,
            },
            (CapturePhase::MarkingEnded { status, .. }, _) => CapturePhase::Finished(Ok(status)),
            (phase, _) => phase,
        }
    }

    /// The phase that follows `reply`.
    ///
    /// After the first failure all that is left is to record that the session failed; how
    /// that goes changes nothing any more. A reply that does not answer the phase's command
    /// leaves the phase as it is.
    pub open spec fn after(self, reply: CaptureReply<S, E>) -> CapturePhase<S, E> {
        if !self.accepts(reply) {
            self
        } else {
            match (self, self.failure(reply)) {
                (CapturePhase::MarkingFailed(error), _) => CapturePhase::Finished(Err(error)),
                (_, Some(error)) => CapturePhase::MarkingFailed(error),
                (_, None) => self.succeeded(reply),
            }
        }
    }
}

/// The capture of the command of session `session_id`, about to start its process.
pub fn capture_command_output<'a, S, E>(db_path: &'a PathBuf, session_id: &'a str) -> (capture:
    Capture<'a, S, E>)
    ensures
        capture.db_path == db_path,
        capture.session_id == session_id,
        capture.phase == CapturePhase::<S, E>::Starting,
{
    Capture { db_path, session_id, phase: CapturePhase::Starting }
}

impl<'a, S, E> Capture<'a, S, E> {
    /// What the driver is to do next.
    pub fn command(&self) -> (command: CaptureCommand)
        ensures
            command == self.phase.command(),
    {
        match &self.phase {
            CapturePhase::Starting => CaptureCommand::Start,
            CapturePhase::MarkingRunning => CaptureCommand::SetState(SessionState::Running),
            CapturePhase::TakingStdout => CaptureCommand::TakePipe(OutputStream::Stdout),
            CapturePhase::TakingStderr => CaptureCommand::TakePipe(OutputStream::Stderr),
            CapturePhase::SpawningStdout => CaptureCommand::SpawnCapture(OutputStream::Stdout),
            CapturePhase::SpawningStderr => CaptureCommand::SpawnCapture(OutputStream::Stderr),
            CapturePhase::Waiting => CaptureCommand::Wait,
            CapturePhase::JoiningStdout { .. } => CaptureCommand::JoinCapture(OutputStream::Stdout),
            CapturePhase::JoiningStderr { .. } => CaptureCommand::JoinCapture(OutputStream::Stderr),
            CapturePhase::MarkingEnded { success, .. } => CaptureCommand::SetState(
                if *success {
                    SessionState::Completed
                } else {
                    SessionState::Failed
                },
            ),
            CapturePhase::MarkingFailed(_) => CaptureCommand::SetState(SessionState::Failed),
            CapturePhase::Finished(_) => CaptureCommand::Return,
        }
    }

    /// The write to the store that a [`CaptureCommand::SetState`] asks for.
    pub fn state_task(&self) -> (task: Option<StoreTask<'a, E>>)
        ensures
            match self.phase.command() {
                CaptureCommand::SetState(state) => task == Some(
                    StoreTask::<'a, E> {
                        db_path: self.db_path,
                        write: StoreWrite::SetState { session_id: self.session_id, state },
                        stage: StoreStage::Opening,
                    },
                ),
                _ => task is None,
            },
    {
        match self.command() {
            CaptureCommand::SetState(state) => Some(
                update_session_state(self.db_path, self.session_id, state),
            ),
            _ => None,
        }
    }

    /// Takes note of how the command went.
    pub fn answer(self, reply: CaptureReply<S, E>) -> (next: Capture<'a, S, E>)
        ensures
            next.db_path == self.db_path,
            next.session_id == self.session_id,
            next.phase == self.phase.after(reply),
    {
        let phase = match (self.phase, reply) {
            (CapturePhase::Starting, CaptureReply::Done) => CapturePhase::MarkingRunning,
            (CapturePhase::Starting, CaptureReply::Failed(error)) => CapturePhase::MarkingFailed(
                CaptureError::Start(error),
            ),
            (CapturePhase::MarkingRunning, CaptureReply::Done) => CapturePhase::TakingStdout,
            (CapturePhase::MarkingRunning, CaptureReply::Failed(error)) =>
                CapturePhase::MarkingFailed(CaptureError::Step(error)),
            (CapturePhase::TakingStdout, CaptureReply::Done) => CapturePhase::TakingStderr,
            (CapturePhase::TakingStdout, CaptureReply::Absent) => CapturePhase::MarkingFailed(
                CaptureError::NoStdout,
            ),
            (CapturePhase::TakingStderr, CaptureReply::Done) => CapturePhase::SpawningStdout,
            (CapturePhase::TakingStderr, CaptureReply::Absent) => CapturePhase::MarkingFailed(
                CaptureError::NoStderr,
            ),
            (CapturePhase::SpawningStdout, CaptureReply::Done) => CapturePhase::SpawningStderr,
            (CapturePhase::SpawningStderr, CaptureReply::Done) => CapturePhase::Waiting,
            (CapturePhase::Waiting, CaptureReply::Exited { status, success }) =>
                CapturePhase::JoiningStdout { status, success },
            (CapturePhase::Waiting, CaptureReply::Failed(error)) => CapturePhase::MarkingFailed(
                CaptureError::Step(error),
            ),
            (CapturePhase::JoiningStdout { status, success }, CaptureReply::Done) =>
                CapturePhase::JoiningStderr { status, success },
            (CapturePhase::JoiningStdout { .. }, CaptureReply::Failed(error)) =>
                CapturePhase::MarkingFailed(CaptureError::Step(error)),
            (CapturePhase::JoiningStderr { status, success }, CaptureReply::Done) =>
                CapturePhase::MarkingEnded { status, success },
            (CapturePhase::JoiningStderr { .. }, CaptureReply::Failed(error)) =>
                CapturePhase::MarkingFailed(CaptureError::Step(error)),
            (CapturePhase::MarkingEnded { status, .. }, CaptureReply::Done) =>
                CapturePhase::Finished(Ok(status)),
            (CapturePhase::MarkingEnded { .. }, CaptureReply::Failed(error)) =>
                CapturePhase::MarkingFailed(CaptureError::Step(error)),
            (CapturePhase::MarkingFailed(error), CaptureReply::Done) => CapturePhase::Finished(
                Err(error),
            ),
            (CapturePhase::MarkingFailed(error), CaptureReply::Failed(_)) =>
                CapturePhase::Finished(Err(error)),
            (phase, _) => phase,
        };
        Capture { db_path: self.db_path, session_id: self.session_id, phase }
    }

    /// The outcome, once there is one: the status that the process exited with, or the
    /// first failure.
    pub fn into_outcome(self) -> (outcome: Option<Result<S, CaptureError<E>>>)
        ensures
            outcome == match self.phase {
                CapturePhase::Finished(result) => Some(result),
                _ => None,
            },
    {
        match self.phase {
            CapturePhase::Finished(result) => Some(result),
            _ => None,
        }
    }
}

impl<E> CaptureError<E> {
    /// What [`CaptureError::explanation`] says.
    pub open spec fn explained(self, session_id: Seq<char>) -> Option<Seq<char>> {
        match self {
            CaptureError::Start(_) => Some("Failed to start process for session "@ + session_id),
            CaptureError::NoStdout => Some("Child stdout was not piped"@),
            CaptureError::NoStderr => Some("Child stderr was not piped"@),
            CaptureError::Step(_) => None,
        }
    }

    /// The sentence that says what could not be done; a later step's error speaks for itself.
    pub fn explanation(&self, session_id: &str) -> (sentence: Option<String>)
        ensures
            match self.explained(session_id@) {
                Some(text) => sentence is Some && sentence->0@ == text,
                None => sentence is None,
            },
    {
        match self {
            CaptureError::Start(_) => {
                let mut text = "Failed to start process for session ".to_owned();
                text.append(session_id);
                Some(text)
            },
            CaptureError::NoStdout => Some("Child stdout was not piped".to_owned()),
            CaptureError::NoStderr => Some("Child stderr was not piped".to_owned()),
            CaptureError::Step(_) => None,
        }
    }
}

/// The phase that is reached from `phase` when the driver answers with `replies`.
pub open spec fn reached<S, E>(
    phase: CapturePhase<S, E>,
    replies: Seq<CaptureReply<S, E>>,
) -> CapturePhase<S, E>
    decreases replies.len(),
{
    if replies.len() == 0 {
        phase
    } else {
        reached(phase, replies.drop_last()).after(replies.last())
    }
}

/// The commands that `replies` answer, in order, when the capture starts in `phase`.
pub open spec fn answered<S, E>(
    phase: CapturePhase<S, E>,
    replies: Seq<CaptureReply<S, E>>,
) -> Seq<CaptureCommand>
    decreases replies.len(),
{
    if replies.len() == 0 {
        Seq::empty()
    } else {
        let before = reached(phase, replies.drop_last());
        let commands = answered(phase, replies.drop_last());
        if before.accepts(replies.last()) {
            commands.push(before.command())
        } else {
            commands
        }
    }
}

/// The states that were recorded in the store, in order.
pub open spec fn recorded<S, E>(
    phase: CapturePhase<S, E>,
    replies: Seq<CaptureReply<S, E>>,
) -> Seq<SessionState>
    decreases replies.len(),
{
    if replies.len() == 0 {
        Seq::empty()
    } else {
        let states = recorded(phase, replies.drop_last());
        match (reached(phase, replies.drop_last()).command(), replies.last()) {
            (CaptureCommand::SetState(state), CaptureReply::Done) => states.push(state),
            _ => states,
        }
    }
}

/// What a capture does from start to end when nothing goes wrong.
pub open spec fn script(success: bool) -> Seq<CaptureCommand> {
    seq![
        CaptureCommand::Start,
        CaptureCommand::SetState(SessionState::Running),
        CaptureCommand::TakePipe(OutputStream::Stdout),
        CaptureCommand::TakePipe(OutputStream::Stderr),
        CaptureCommand::SpawnCapture(OutputStream::Stdout),
        CaptureCommand::SpawnCapture(OutputStream::Stderr),
        CaptureCommand::Wait,
        CaptureCommand::JoinCapture(OutputStream::Stdout),
        CaptureCommand::JoinCapture(OutputStream::Stderr),
        CaptureCommand::SetState(ended_state(success)),
    ]
}

/// How many commands of the script lie behind a phase that is on it.
spec fn script_position<S, E>(phase: CapturePhase<S, E>) -> int {
    match phase {
        CapturePhase::Starting => 0,
        CapturePhase::MarkingRunning => 1,
        CapturePhase::TakingStdout => 2,
        CapturePhase::TakingStderr => 3,
        CapturePhase::SpawningStdout => 4,
        CapturePhase::SpawningStderr => 5,
        CapturePhase::Waiting => 6,
        CapturePhase::JoiningStdout { .. } => 7,
        CapturePhase::JoiningStderr { .. } => 8,
        CapturePhase::MarkingEnded { .. } => 9,
        _ => 10,
    }
}

/// What the commands, the recorded states and the replies of a run have to do with the
/// phase that it has reached.
spec fn consistent<S, E>(
    phase: CapturePhase<S, E>,
    commands: Seq<CaptureCommand>,
    states: Seq<SessionState>,
    replies: Seq<CaptureReply<S, E>>,
) -> bool {
    let position = script_position(phase);
    match phase {
        CapturePhase::MarkingFailed(_) => {
            &&& exists|success: bool, done: int|
                0 < done <= 10 && commands == #[trigger] script(success).take(done)
            &&& states == Seq::<SessionState>::empty() || states == seq![SessionState::Running]
        },
        CapturePhase::Finished(Ok(status)) => exists|success: bool|
            {
                &&& replies.contains(CaptureReply::Exited { status, success })
                &&& commands == #[trigger] script(success)
                &&& states == seq![SessionState::Running, ended_state(success)]
            },
        CapturePhase::Finished(Err(_)) => {
            &&& exists|success: bool, done: int|
                0 < done <= 10 && commands == #[trigger] script(success).take(done).push(
                    CaptureCommand::SetState(SessionState::Failed),
                )
            &&& {
                ||| states == Seq::<SessionState>::empty()
                ||| states == seq![SessionState::Running]
                ||| states == seq![SessionState::Failed]
                ||| states == seq![SessionState::Running, SessionState::Failed]
            }
        },
        CapturePhase::JoiningStdout { status, success }
        | CapturePhase::JoiningStderr { status, success }
        | CapturePhase::MarkingEnded { status, success } => {
            &&& replies.contains(CaptureReply::Exited { status, success })
            &&& commands == script(success).take(position)
            &&& states == seq![SessionState::Running]
        },
        _ => {
            &&& forall|success: bool| commands == #[trigger] script(success).take(position)
            &&& states == if position < 2 {
                Seq::<SessionState>::empty()
            } else {
                seq![SessionState::Running]
            }
        },
    }
}

proof fn script_grows(success: bool, done: int)
    requires
        0 <= done < 10,
    ensures
        script(success).take(done).push(script(success)[done]) == script(success).take(done + 1),
{
    assert(script(success).take(done).push(script(success)[done]) =~= script(success).take(
        done + 1,
    ));
}

proof fn script_agrees(done: int)
    requires
        0 <= done < 10,
    ensures
        script(true).take(done) == script(false).take(done),
{
    assert(script(true).take(done) =~= script(false).take(done));
}

proof fn run_is_consistent<S, E>(replies: Seq<CaptureReply<S, E>>)
    ensures
        consistent(
            reached(CapturePhase::Starting, replies),
            answered(CapturePhase::Starting, replies),
            recorded(CapturePhase::Starting, replies),
            replies,
        ),
    decreases replies.len(),
{
    let start = CapturePhase::<S, E>::Starting;
    if replies.len() == 0 {
        assert forall|success: bool|
            answered(start, replies) == #[trigger] script(success).take(0) by {
            assert(answered(start, replies) =~= script(success).take(0));
        }
    } else {
        let earlier = replies.drop_last();
        let reply = replies.last();
        run_is_consistent(earlier);
        let before = reached(start, earlier);
        let position = script_position(before);
        assert forall|r: CaptureReply<S, E>| #[trigger] earlier.contains(r) implies replies.contains(
            r,
        ) by {
            let i = choose|i: int| 0 <= i < earlier.len() && earlier[i] == r;
            assert(replies[i] == r);
        }
        assert(replies[replies.len() - 1] == reply);
        if before.accepts(reply) && position < 10 {
            let commands = answered(start, earlier);
            let success = match before {
                CapturePhase::JoiningStdout { success, .. } => success,
                CapturePhase::JoiningStderr { success, .. } => success,
                CapturePhase::MarkingEnded { success, .. } => success,
                _ => match reply {
                    CaptureReply::Exited { success, .. } => success,
                    _ => true,
                },
            };
            assert(commands == script(success).take(position));
            assert(script(success)[position] == before.command());
            script_grows(success, position);
            assert(answered(start, replies) == script(success).take(position + 1));
            if position < 9 {
                script_agrees(position + 1);
                assert(script(true).take(position + 1) == script(false).take(position + 1));
            } else {
                assert(script(success).take(10) =~= script(success));
            }
            assert(seq![SessionState::Running].push(ended_state(success)) =~= seq![
                SessionState::Running,
                ended_state(success),
            ]);
            assert(Seq::<SessionState>::empty().push(SessionState::Running) =~= seq![
                SessionState::Running,
            ]);
        } else if before.accepts(reply) {
            let (success, done) = choose|success: bool, done: int|
                0 < done <= 10 && answered(start, earlier) == #[trigger] script(success).take(done);
            assert(answered(start, replies) == script(success).take(done).push(
                CaptureCommand::SetState(SessionState::Failed),
            ));
            assert(seq![SessionState::Running].push(SessionState::Failed) =~= seq![
                SessionState::Running,
                SessionState::Failed,
            ]);
            assert(Seq::<SessionState>::empty().push(SessionState::Failed) =~= seq![
                SessionState::Failed,
            ]);
        }
    }
}

/// A capture does the steps of its script in order and leaves none out. After the first
/// failure, if there is one, it only records that the session failed. So it ends after
/// eleven answered commands at the latest.
pub proof fn capture_follows_script<S, E>(replies: Seq<CaptureReply<S, E>>)
    ensures
        answered(CapturePhase::Starting, replies).len() <= 11,
        exists|success: bool, done: int|
            0 <= done <= 10 && {
                ||| answered(CapturePhase::Starting, replies) == #[trigger] script(success).take(
                    done,
                )
                ||| answered(CapturePhase::Starting, replies) == script(success).take(done).push(
                    CaptureCommand::SetState(SessionState::Failed),
                )
            },
{
    run_is_consistent(replies);
    let phase = reached(CapturePhase::<S, E>::Starting, replies);
    let commands = answered(CapturePhase::<S, E>::Starting, replies);
    match phase {
        CapturePhase::MarkingFailed(_) => {
            let (success, done) = choose|success: bool, done: int|
                0 < done <= 10 && commands == #[trigger] script(success).take(done);
            assert(commands == script(success).take(done));
        },
        CapturePhase::Finished(Ok(_)) => {
            let success = choose|success: bool| commands == #[trigger] script(success);
            assert(script(success).take(10) =~= script(success));
        },
        CapturePhase::Finished(Err(_)) => {
            let (success, done) = choose|success: bool, done: int|
                0 < done <= 10 && commands == #[trigger] script(success).take(done).push(
                    CaptureCommand::SetState(SessionState::Failed),
                );
            assert(script(success).take(done).len() == done);
        },
        CapturePhase::JoiningStdout { success, .. }
        | CapturePhase::JoiningStderr { success, .. }
        | CapturePhase::MarkingEnded { success, .. } => {
            assert(commands == script(success).take(script_position(phase)));
        },
        _ => {
            assert(commands == script(true).take(script_position(phase)));
        },
    }
}

/// A capture that returns an exit status did every step, and the store has seen the session
/// running and then completed or failed, as the process itself reported.
pub proof fn successful_capture_records_how_the_process_ended<S, E>(
    replies: Seq<CaptureReply<S, E>>,
    status: S,
)
    requires
        reached(CapturePhase::Starting, replies) == CapturePhase::<S, E>::Finished(Ok(status)),
    ensures
        exists|success: bool|
            {
                &&& replies.contains(CaptureReply::Exited { status, success })
                &&& answered(CapturePhase::Starting, replies) == #[trigger] script(success)
                &&& recorded(CapturePhase::Starting, replies) == seq![
                    SessionState::Running,
                    ended_state(success),
                ]
            },
{
    run_is_consistent(replies);
}

/// In every run, whatever is answered, the session is recorded as completed only if the process
/// was reported to have succeeded, and a status is returned only if the process was reported
/// to have exited with it.
pub proof fn completion_needs_success<S, E>(replies: Seq<CaptureReply<S, E>>)
    ensures
        recorded(CapturePhase::Starting, replies).contains(SessionState::Completed) ==> exists|
            status: S,
        |
            replies.contains(CaptureReply::<S, E>::Exited { status, success: true }),
        reached(CapturePhase::Starting, replies) matches CapturePhase::Finished(Ok(status))
            ==> exists|success: bool|
            replies.contains(CaptureReply::<S, E>::Exited { status, success }),
{
    run_is_consistent(replies);
}

/// A capture that returns an error never recorded the session as completed, and the last
/// thing it did was to record it as failed.
pub proof fn failed_capture_marks_the_session_failed<S, E>(
    replies: Seq<CaptureReply<S, E>>,
    error: CaptureError<E>,
)
    requires
        reached(CapturePhase::Starting, replies) == CapturePhase::<S, E>::Finished(Err(error)),
    ensures
        answered(CapturePhase::Starting, replies).len() > 0,
        answered(CapturePhase::Starting, replies).last() == CaptureCommand::SetState(
            SessionState::Failed,
        ),
        !recorded(CapturePhase::Starting, replies).contains(SessionState::Completed),
{
    run_is_consistent(replies);
    let commands = answered(CapturePhase::<S, E>::Starting, replies);
    let (success, done) = choose|success: bool, done: int|
        0 < done <= 10 && commands == #[trigger] script(success).take(done).push(
            CaptureCommand::SetState(SessionState::Failed),
        );
    assert(commands.last() == CaptureCommand::SetState(SessionState::Failed));
}

/// The first failure is the outcome: the session is marked as failed next, and whether that
/// can be recorded or not, the capture then returns the failure's error.
pub proof fn first_failure_is_the_outcome<S, E>(
    phase: CapturePhase<S, E>,
    reply: CaptureReply<S, E>,
    error: CaptureError<E>,
    marked: CaptureReply<S, E>,
)
    requires
        phase.accepts(reply),
        !(phase is MarkingFailed),
        phase.failure(reply) == Some(error),
        marked is Done || marked is Failed,
    ensures
        phase.after(reply).command() == CaptureCommand::SetState(SessionState::Failed),
        phase.after(reply).after(marked) == CapturePhase::<S, E>::Finished(Err(error)),
{
}

/// Once there is an outcome, no reply changes it.
pub proof fn outcome_is_final<S, E>(
    outcome: Result<S, CaptureError<E>>,
    reply: CaptureReply<S, E>,
)
    ensures
        CapturePhase::Finished(outcome).after(reply) == CapturePhase::<S, E>::Finished(outcome),
{
}

} // verus!
