use std::collections::HashSet;
use std::path::PathBuf;

use ecc2::session::command::{
    capture_command_output, Capture, CaptureCommand, CaptureError, CapturePhase, CaptureReply,
};
use ecc2::session::store::{
    append_output_line, update_session_state, StoreStage, StoreTask, StoreWrite,
};
use ecc2::session::stream::{capture_stream, StreamPhase, StreamReply};
use ecc2::session::{OutputEvent, OutputLine, OutputStream, SessionState};
use tokio::sync::broadcast;

/// A store that keeps one session in memory.
struct Store {
    session_id: String,
    state: SessionState,
    states: Vec<SessionState>,
    lines: Vec<OutputLine>,
    broken: bool,
}

impl Store {
    fn new() -> Store {
        Store {
            session_id: "session-1".to_string(),
            state: SessionState::Pending,
            states: Vec::new(),
            lines: Vec::new(),
            broken: false,
        }
    }

    fn perform(&mut self, task: StoreTask<'_, String>) -> Result<(), String> {
        let mut task = task;
        loop {
            let reply = match &task.stage {
                StoreStage::Opening if self.broken => Err("cannot open".to_string()),
                StoreStage::Opening => Ok(()),
                StoreStage::Writing => self.write(&task.write),
                StoreStage::Finished(outcome) => return outcome.clone(),
            };
            task = task.answer(reply);
        }
    }

    fn write(&mut self, write: &StoreWrite<'_>) -> Result<(), String> {
        match write {
            StoreWrite::AppendLine { session_id, stream, line } => {
                assert_eq!(*session_id, self.session_id);
                self.lines.push(OutputLine { stream: *stream, text: line.to_string() });
            }
            StoreWrite::SetState { session_id, state } => {
                assert_eq!(*session_id, self.session_id);
                self.state = *state;
                self.states.push(*state);
            }
        }
        Ok(())
    }
}

/// Captures what a process printed on `stream`.
fn run_stream(
    path: &PathBuf,
    stream: OutputStream,
    printed: &str,
    store: &mut Store,
    live: &broadcast::Sender<OutputEvent>,
) -> Result<(), String> {
    let mut lines = printed.lines();
    let mut capture = capture_stream::<String>(path, "session-1", stream);
    loop {
        let reply = match &capture.phase {
            StreamPhase::Reading => match lines.next() {
                Some(line) => StreamReply::Line(line.to_string()),
                None => StreamReply::End,
            },
            StreamPhase::Pushing(line) => {
                let line = OutputLine { stream: capture.stream, text: line.clone() };
                assert!(live.send(OutputEvent { line }).is_ok());
                StreamReply::Done
            }
            StreamPhase::Appending(_) => {
                let task = capture.append_task().expect("a line is to be appended");
                match store.perform(task) {
                    Ok(()) => StreamReply::Done,
                    Err(error) => StreamReply::Failed(error),
                }
            }
            StreamPhase::Finished(outcome) => return outcome.clone(),
        };
        capture = capture.answer(reply);
    }
}

#[test]
fn capture_command_output_persists_lines_and_events() {
    let path = PathBuf::from("sessions.db");
    let mut store = Store::new();
    let (live, mut rx) = broadcast::channel(16);
    let mut capture = capture_command_output::<i32, String>(&path, "session-1");
    while capture.command() != CaptureCommand::Return {
        let reply = match capture.command() {
            CaptureCommand::SetState(_) => {
                let task = capture.state_task().expect("a state is to be recorded");
                match store.perform(task) {
                    Ok(()) => CaptureReply::Done,
                    Err(error) => CaptureReply::Failed(error),
                }
            }
            CaptureCommand::Wait => CaptureReply::Exited { status: 0, success: true },
            CaptureCommand::JoinCapture(stream) => {
                let printed = match stream {
                    OutputStream::Stdout => "alpha\n",
                    OutputStream::Stderr => "beta\n",
                };
                match run_stream(&path, stream, printed, &mut store, &live) {
                    Ok(()) => CaptureReply::Done,
                    Err(error) => CaptureReply::Failed(error),
                }
            }
            _ => CaptureReply::Done,
        };
        capture = capture.answer(reply);
    }
    let status = capture.into_outcome().expect("the capture has ended").expect("it succeeded");
    assert_eq!(status, 0);

    assert_eq!(store.state, SessionState::Completed);

    let texts: HashSet<_> = store.lines.iter().map(|line| line.text.as_str()).collect();
    assert_eq!(store.lines.len(), 2);
    assert!(texts.contains("alpha"));
    assert!(texts.contains("beta"));

    let mut events = Vec::new();
    while let Ok(event) = rx.try_recv() {
        events.push(event.line.text);
    }

    assert_eq!(events.len(), 2);
    assert!(events.iter().any(|line| line == "alpha"));
    assert!(events.iter().any(|line| line == "beta"));
}

/// Answers every command with success but one, and returns the commands with the outcome.
fn run(
    failing: Option<CaptureCommand>,
    exit: (i32, bool),
) -> (Vec<CaptureCommand>, Result<i32, CaptureError<&'static str>>) {
    let path = PathBuf::from("sessions.db");
    let mut commands = Vec::new();
    let mut capture: Capture<'_, i32, &'static str> = capture_command_output(&path, "session-1");
    loop {
        let command = capture.command();
        if command == CaptureCommand::Return {
            return (commands, capture.into_outcome().expect("there is an outcome"));
        }
        let fails = failing == Some(command) && !commands.contains(&command);
        commands.push(command);
        let reply = match command {
            CaptureCommand::TakePipe(_) if fails => CaptureReply::Absent,
            _ if fails => CaptureReply::Failed("broken"),
            CaptureCommand::Wait => CaptureReply::Exited { status: exit.0, success: exit.1 },
            _ => CaptureReply::Done,
        };
        capture = capture.answer(reply);
    }
}

fn script(last: SessionState) -> Vec<CaptureCommand> {
    vec![
        CaptureCommand::Start,
        CaptureCommand::SetState(SessionState::Running),
        CaptureCommand::TakePipe(OutputStream::Stdout),
        CaptureCommand::TakePipe(OutputStream::Stderr),
        CaptureCommand::SpawnCapture(OutputStream::Stdout),
        CaptureCommand::SpawnCapture(OutputStream::Stderr),
        CaptureCommand::Wait,
        CaptureCommand::JoinCapture(OutputStream::Stdout),
        CaptureCommand::JoinCapture(OutputStream::Stderr),
        CaptureCommand::SetState(last),
    ]
}

#[test]
fn a_process_that_succeeds_completes_the_session() {
    let (commands, outcome) = run(None, (0, true));
    assert_eq!(commands, script(SessionState::Completed));
    assert!(matches!(outcome, Ok(0)));
}

#[test]
fn a_process_that_fails_fails_the_session_but_not_the_capture() {
    let (commands, outcome) = run(None, (3, false));
    assert_eq!(commands, script(SessionState::Failed));
    assert!(matches!(outcome, Ok(3)));
}

#[test]
fn every_failure_marks_the_session_and_is_returned() {
    let full = script(SessionState::Completed);
    for (done, command) in full.iter().enumerate() {
        if matches!(command, CaptureCommand::SpawnCapture(_)) {
            continue;
        }
        let (commands, outcome) = run(Some(*command), (0, true));
        let mut expected = full[..done + 1].to_vec();
        expected.push(CaptureCommand::SetState(SessionState::Failed));
        assert_eq!(commands, expected);
        let error = outcome.expect_err("the step failed");
        match command {
            CaptureCommand::Start => assert!(matches!(error, CaptureError::Start("broken"))),
            CaptureCommand::TakePipe(OutputStream::Stdout) => {
                assert!(matches!(error, CaptureError::NoStdout))
            }
            CaptureCommand::TakePipe(OutputStream::Stderr) => {
                assert!(matches!(error, CaptureError::NoStderr))
            }
            _ => assert!(matches!(error, CaptureError::Step("broken"))),
        }
    }
}

#[test]
fn a_failure_that_cannot_be_recorded_is_returned_all_the_same() {
    let path = PathBuf::from("sessions.db");
    let capture: Capture<'_, i32, &str> = capture_command_output(&path, "session-1");
    let capture = capture.answer(CaptureReply::Failed("no such program"));
    assert_eq!(capture.command(), CaptureCommand::SetState(SessionState::Failed));
    let capture = capture.answer(CaptureReply::Failed("store is locked"));
    assert!(matches!(
        capture.into_outcome(),
        Some(Err(CaptureError::Start("no such program")))
    ));
}

#[test]
fn a_reply_to_another_command_is_ignored() {
    let path = PathBuf::from("sessions.db");
    let capture: Capture<'_, i32, &str> = capture_command_output(&path, "session-1");
    let capture = capture.answer(CaptureReply::Exited { status: 0, success: true });
    assert_eq!(capture.command(), CaptureCommand::Start);
    let capture = capture.answer(CaptureReply::Absent);
    assert!(matches!(capture.phase, CapturePhase::Starting));
    assert!(capture.state_task().is_none());
    assert!(capture.into_outcome().is_none());
}

#[test]
fn capture_errors_explain_themselves() {
    let start: CaptureError<&str> = CaptureError::Start("x");
    assert_eq!(
        start.explanation("session-1").as_deref(),
        Some("Failed to start process for session session-1")
    );
    let stdout: CaptureError<&str> = CaptureError::NoStdout;
    assert_eq!(stdout.explanation("s").as_deref(), Some("Child stdout was not piped"));
    let stderr: CaptureError<&str> = CaptureError::NoStderr;
    assert_eq!(stderr.explanation("s").as_deref(), Some("Child stderr was not piped"));
    let step: CaptureError<&str> = CaptureError::Step("x");
    assert_eq!(step.explanation("s"), None);
}

#[test]
fn lines_are_pushed_and_appended_in_order() {
    let path = PathBuf::from("sessions.db");
    let mut store = Store::new();
    let (live, mut rx) = broadcast::channel(16);
    let outcome = run_stream(&path, OutputStream::Stderr, "one\ntwo\n\nthree", &mut store, &live);
    assert_eq!(outcome, Ok(()));
    let stored: Vec<&str> = store.lines.iter().map(|line| line.text.as_str()).collect();
    assert_eq!(stored, vec!["one", "two", "", "three"]);
    assert!(store.lines.iter().all(|line| line.stream == OutputStream::Stderr));
    let mut pushed = Vec::new();
    while let Ok(event) = rx.try_recv() {
        pushed.push(event.line.text);
    }
    assert_eq!(pushed, stored);
}

#[test]
fn a_line_that_cannot_be_appended_was_pushed_and_ends_the_capture() {
    let path = PathBuf::from("sessions.db");
    let mut store = Store::new();
    store.broken = true;
    let (live, mut rx) = broadcast::channel(16);
    let outcome = run_stream(&path, OutputStream::Stdout, "one\ntwo", &mut store, &live);
    assert_eq!(outcome, Err("cannot open".to_string()));
    assert_eq!(store.lines.len(), 0);
    assert_eq!(rx.try_recv().expect("one event").line.text, "one");
    assert!(rx.try_recv().is_err());
}

#[test]
fn a_stream_that_cannot_be_read_ends_the_capture() {
    let path = PathBuf::from("sessions.db");
    let capture = capture_stream(&path, "session-1", OutputStream::Stdout);
    assert!(capture.append_task().is_none());
    let capture = capture.answer(StreamReply::Failed("pipe broke"));
    assert!(matches!(capture.phase, StreamPhase::Finished(Err("pipe broke"))));
}

#[test]
fn a_store_that_does_not_open_is_not_written_to() {
    let path = PathBuf::from("sessions.db");
    let mut store = Store::new();
    store.broken = true;
    let append = append_output_line(&path, "session-1", OutputStream::Stdout, "line");
    assert_eq!(store.perform(append), Err("cannot open".to_string()));
    let update = update_session_state(&path, "session-1", SessionState::Running);
    assert_eq!(store.perform(update), Err("cannot open".to_string()));
    assert_eq!(store.lines.len(), 0);
    assert!(store.states.is_empty());
}

#[test]
fn store_tasks_carry_what_is_to_be_written() {
    let path = PathBuf::from("sessions.db");
    let task: StoreTask<'_, ()> = append_output_line(&path, "s", OutputStream::Stderr, "text");
    assert_eq!(task.db_path, &path);
    assert!(matches!(task.stage, StoreStage::Opening));
    assert!(matches!(
        task.write,
        StoreWrite::AppendLine { session_id: "s", stream: OutputStream::Stderr, line: "text" }
    ));
    let task = task.answer(Ok(()));
    assert!(matches!(task.stage, StoreStage::Writing));
    let task = task.answer(Err(()));
    assert!(matches!(task.stage, StoreStage::Finished(Err(()))));
    let task = task.answer(Ok(()));
    assert!(matches!(task.stage, StoreStage::Finished(Err(()))));

    let task: StoreTask<'_, ()> = update_session_state(&path, "s", SessionState::Idle);
    assert!(matches!(
        task.write,
        StoreWrite::SetState { session_id: "s", state: SessionState::Idle }
    ));
}
