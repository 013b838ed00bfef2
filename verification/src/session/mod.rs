//! Sessions, their states and the lines that their processes print.

pub mod command;
pub mod laws;
pub mod store;
pub mod stream;

use vstd::prelude::*;

verus! {

/// Where a session stands in its life.
#[derive(Debug, Clone, Copy, PartialEq, Eq, Structural)]
pub enum SessionState {
    Pending,
    Running,
    Idle,
    Completed,
    Failed,
    Stopped,
}

/// The stream of a child process that a line was printed on.
#[derive(Debug, Clone, Copy, PartialEq, Eq, Structural)]
pub enum OutputStream {
    Stdout,
    Stderr,
}

/// One line of a session's output, without its line break.
#[derive(Debug)]
pub struct OutputLine {
    pub stream: OutputStream,
    pub text: String,
}

/// What an [`OutputLine`] is: its stream and its characters.
pub struct LineView {
    pub stream: OutputStream,
    pub text: Seq<char>,
}

impl View for OutputLine {
    type V = LineView;

    open spec fn view(&self) -> LineView {
        LineView { stream: self.stream, text: self.text@ }
    }
}

impl Clone for OutputLine {
    fn clone(&self) -> (copy: Self)
        ensures
            copy == *self,
    {
        OutputLine { stream: self.stream, text: self.text.clone() }
    }
}

/// The lines of a vector, each by its view.
pub open spec fn line_views(lines: Seq<OutputLine>) -> Seq<LineView> {
    lines.map_values(|line: OutputLine| line@)
}

/// Tells the dashboard that a session printed a line.
#[derive(Debug)]
pub struct OutputEvent {
    pub line: OutputLine,
}

impl Clone for OutputEvent {
    fn clone(&self) -> (copy: Self)
        ensures
            copy == *self,
    {
        OutputEvent { line: self.line.clone() }
    }
}

/// What a session has used up so far.
///
/// The cost is an amount of dollars in decimal notation with four places, such as `0.1250`.
#[derive(Debug)]
pub struct SessionMetrics {
    pub tokens_used: u64,
    pub tool_calls: u64,
    pub files_changed: u64,
    pub cost_usd: String,
    pub duration_secs: u64,
}

/// What [`SessionMetrics`] are: four counts and the characters of the cost.
pub struct MetricsView {
    pub tokens_used: nat,
    pub tool_calls: nat,
    pub files_changed: nat,
    pub cost_usd: Seq<char>,
    pub duration_secs: nat,
}

impl View for SessionMetrics {
    type V = MetricsView;

    open spec fn view(&self) -> MetricsView {
        MetricsView {
            tokens_used: self.tokens_used as nat,
            tool_calls: self.tool_calls as nat,
            files_changed: self.files_changed as nat,
            cost_usd: self.cost_usd@,
            duration_secs: self.duration_secs as nat,
        }
    }
}

/// One run of an agent on a task.
#[derive(Debug)]
pub struct Session {
    pub id: String,
    pub task: String,
    pub agent_type: String,
    pub state: SessionState,
    pub metrics: SessionMetrics,
}

/// What a [`Session`] is, with its texts as characters.
pub struct SessionView {
    pub id: Seq<char>,
    pub task: Seq<char>,
    pub agent_type: Seq<char>,
    pub state: SessionState,
    pub metrics: MetricsView,
}

impl View for Session {
    type V = SessionView;

    open spec fn view(&self) -> SessionView {
        SessionView {
            id: self.id@,
            task: self.task@,
            agent_type: self.agent_type@,
            state: self.state,
            metrics: self.metrics@,
        }
    }
}

/// The sessions of a vector, each by its view.
pub open spec fn session_views(sessions: Seq<Session>) -> Seq<SessionView> {
    sessions.map_values(|session: Session| session@)
}

} // verus!
