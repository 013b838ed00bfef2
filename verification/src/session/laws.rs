//! What can be relied on of a session's run, whatever its process prints and however it ends.

use std::path::PathBuf;

use vstd::prelude::*;

use crate::session::command::{
    capture_command_output, reached, recorded, Capture, CaptureCommand, CaptureError, CapturePhase,
    CaptureReply,
};
use crate::session::store::{
    append_output_line, stage_after, update_session_state, StoreStage, StoreTask, StoreWrite,
};
use crate::session::stream::{
    capture_stream, lines_appended, lines_pushed, stream_reached, StreamCapture, StreamPhase,
    StreamReply,
};
use crate::session::{
    line_views, session_views, OutputEvent, OutputLine, OutputStream, Session, SessionState,
};

verus! {

/// The view of a session has every field of it, and each as it is.
pub proof fn session_view_is_faithful(session: Session)
    ensures
        session@.id == session.id@,
        session@.task == session.task@,
        session@.agent_type == session.agent_type@,
        session@.state == session.state,
        session@.metrics.tokens_used == session.metrics.tokens_used,
        session@.metrics.tool_calls == session.metrics.tool_calls,
        session@.metrics.files_changed == session.metrics.files_changed,
        session@.metrics.cost_usd == session.metrics.cost_usd@,
        session@.metrics.duration_secs == session.metrics.duration_secs,
{
}

/// The view of a line of output has its stream and its text, and each as it is.
pub proof fn line_view_is_faithful(line: OutputLine)
    ensures
        line@.stream == line.stream,
        line@.text == line.text@,
{
}

/// Sessions and lines keep their number and their order when each is taken by its view.
pub proof fn views_keep_number_and_order(sessions: Seq<Session>, lines: Seq<OutputLine>, i: int)
    ensures
        session_views(sessions).len() == sessions.len(),
        0 <= i < sessions.len() ==> session_views(sessions)[i] == sessions[i]@,
        line_views(lines).len() == lines.len(),
        0 <= i < lines.len() ==> line_views(lines)[i] == lines[i]@,
{
}

/// A copy of a line, and of what tells of it, is the same line.
pub proof fn copies_are_faithful(
    line: OutputLine,
    line_copy: OutputLine,
    event: OutputEvent,
    event_copy: OutputEvent,
)
    requires
        call_ensures(OutputLine::clone, (&line,), line_copy),
        call_ensures(OutputEvent::clone, (&event,), event_copy),
    ensures
        line_copy.stream == line.stream && line_copy.text@ == line.text@,
        event_copy.line.stream == event.line.stream && event_copy.line.text@ == event.line.text@,
{
}

/// How a driver answers while a stream prints `lines` and every step goes well: each line is
/// read, pushed and appended.
pub open spec fn replies_for<E>(lines: Seq<String>) -> Seq<StreamReply<E>>
    decreases lines.len(),
{
    if lines.len() == 0 {
        Seq::empty()
    } else {
        replies_for(lines.drop_last()).push(StreamReply::Line(lines.last())).push(
            StreamReply::Done,
        ).push(StreamReply::Done)
    }
}

/// One more reply is taken note of after all the earlier ones.
pub proof fn stream_replies_are_taken_in_turn<E>(
    phase: StreamPhase<E>,
    replies: Seq<StreamReply<E>>,
    reply: StreamReply<E>,
)
    ensures
        stream_reached(phase, Seq::<StreamReply<E>>::empty()) == phase,
        stream_reached(phase, replies.push(reply)) == stream_reached(phase, replies).after(reply),
{
    assert(replies.push(reply).drop_last() =~= replies);
}

/// However many lines a stream has printed, and whatever they say, all of them have been
/// pushed and appended as they are and in order, and the next one is read. The capture ends
/// well at the stream's end, and not before.
pub proof fn every_line_is_captured<E>(lines: Seq<String>)
    ensures
        stream_reached(StreamPhase::Reading, replies_for::<E>(lines)) == StreamPhase::<E>::Reading,
        stream_reached(StreamPhase::Reading, replies_for::<E>(lines).push(StreamReply::End))
            == StreamPhase::<E>::Finished(Ok(())),
        lines_pushed(replies_for::<E>(lines)) == lines.map_values(|line: String| line@),
        lines_appended(replies_for::<E>(lines)) == lines.map_values(|line: String| line@),
    decreases lines.len(),
{
    let replies = replies_for::<E>(lines);
    stream_replies_are_taken_in_turn(StreamPhase::<E>::Reading, replies, StreamReply::End);
    let texts = lines.map_values(|line: String| line@);
    if lines.len() == 0 {
        assert(texts =~= Seq::empty());
    } else {
        let earlier = replies_for::<E>(lines.drop_last());
        let line = lines.last();
        every_line_is_captured::<E>(lines.drop_last());
        let read = earlier.push(StreamReply::Line(line));
        let pushed = read.push(StreamReply::Done);
        let start = StreamPhase::<E>::Reading;
        assert(replies == pushed.push(StreamReply::Done));
        assert(read.drop_last() =~= earlier);
        assert(pushed.drop_last() =~= read);
        assert(replies.drop_last() =~= pushed);
        assert(stream_reached(start, read) == StreamPhase::<E>::Pushing(line));
        assert(stream_reached(start, pushed) == StreamPhase::<E>::Appending(line));
        assert(stream_reached(start, replies) == StreamPhase::<E>::Reading);
        assert(lines_pushed(read) == lines_pushed(earlier));
        assert(lines_pushed(pushed) == lines_pushed(earlier).push(line@));
        assert(lines_appended(pushed) == lines_appended(read) && lines_appended(read)
            == lines_appended(earlier));
        let before = lines.drop_last().map_values(|line: String| line@);
        assert(before.push(line@) =~= texts);
    }
}

/// The line that is read next is handed on as it is, first to the live output and then to the
/// store, and after it the next one is read, whatever the line says.
pub proof fn a_line_is_pushed_and_then_appended<E>(lines: Seq<String>, line: String)
    ensures
        ({
            let read = replies_for::<E>(lines).push(StreamReply::Line(line));
            let pushed = read.push(StreamReply::Done);
            let appended = pushed.push(StreamReply::Done);
            &&& stream_reached(StreamPhase::Reading, read) == StreamPhase::<E>::Pushing(line)
            &&& stream_reached(StreamPhase::Reading, pushed) == StreamPhase::<E>::Appending(line)
            &&& stream_reached(StreamPhase::Reading, appended) == StreamPhase::<E>::Reading
        }),
{
    let read = replies_for::<E>(lines).push(StreamReply::Line(line));
    let pushed = read.push(StreamReply::Done);
    let start = StreamPhase::<E>::Reading;
    every_line_is_captured::<E>(lines);
    stream_replies_are_taken_in_turn(start, replies_for::<E>(lines), StreamReply::Line(line));
    stream_replies_are_taken_in_turn(start, read, StreamReply::Done);
    stream_replies_are_taken_in_turn(start, pushed, StreamReply::Done);
}

/// Where a line cannot be read or appended, the capture ends with that very error.
pub proof fn a_stream_ends_with_its_first_error<E>(lines: Seq<String>, line: String, error: E)
    ensures
        ({
            let replies = replies_for::<E>(lines);
            let failed = StreamReply::Failed(error);
            let read = replies.push(StreamReply::Line(line));
            let pushed = read.push(StreamReply::Done);
            &&& stream_reached(StreamPhase::Reading, replies.push(failed)) == StreamPhase::<
                E,
            >::Finished(Err(error))
            &&& stream_reached(StreamPhase::Reading, pushed.push(failed)) == StreamPhase::<
                E,
            >::Finished(Err(error))
        }),
{
    let replies = replies_for::<E>(lines);
    let failed = StreamReply::Failed(error);
    let pushed = replies.push(StreamReply::Line(line)).push(StreamReply::Done);
    every_line_is_captured::<E>(lines);
    a_line_is_pushed_and_then_appended::<E>(lines, line);
    stream_replies_are_taken_in_turn(StreamPhase::<E>::Reading, replies, failed);
    stream_replies_are_taken_in_turn(StreamPhase::<E>::Reading, pushed, failed);
}

/// A capture ends well only in answer to the stream's end, and only where the next line was
/// to be read; it ends with an error only where that error was reported.
pub proof fn a_stream_ends_only_for_a_reason<E>(phase: StreamPhase<E>, reply: StreamReply<E>)
    requires
        !(phase is Finished),
    ensures
        phase.after(reply) == StreamPhase::<E>::Finished(Ok(())) ==> phase is Reading
            && reply is End,
        phase.after(reply) matches StreamPhase::Finished(Err(error)) ==> reply
            == StreamReply::<E>::Failed(error),
        phase is Reading && reply is End ==> phase.after(reply) == StreamPhase::<E>::Finished(
            Ok(()),
        ),
{
}

/// A reply that does not answer what is waited for is passed over, and nothing follows the end.
pub proof fn stray_replies_are_passed_over<E>(
    line: String,
    other: String,
    error: E,
    outcome: Result<(), E>,
    reply: StreamReply<E>,
)
    ensures
        StreamPhase::<E>::Reading.after(StreamReply::Done) == StreamPhase::<E>::Reading,
        reply is Line || reply is End || reply is Failed ==> StreamPhase::<E>::Pushing(line).after(
            reply,
        ) == StreamPhase::<E>::Pushing(line),
        reply is Line || reply is End ==> StreamPhase::<E>::Appending(line).after(reply)
            == StreamPhase::<E>::Appending(line),
        StreamPhase::<E>::Finished(outcome).after(reply) == StreamPhase::<E>::Finished(outcome),
{
}

/// The write that a line asks for appends that line, to the output of that session, as printed
/// on that stream, in that store.
pub proof fn a_line_is_appended_where_it_belongs<'a, 'b, E>(
    path: &'a PathBuf,
    session_id: &'a str,
    stream: OutputStream,
    opened: StreamCapture<'a, E>,
    capture: &'b StreamCapture<'a, E>,
    reply: StreamReply<E>,
    next: StreamCapture<'a, E>,
    task: Option<StoreTask<'b, E>>,
)
    requires
        call_ensures(capture_stream::<E>, (path, session_id, stream), opened),
        call_ensures(StreamCapture::<'a, E>::answer, (*capture, reply), next),
        call_ensures(StreamCapture::<'a, E>::append_task, (capture,), task),
    ensures
        opened.db_path == path && opened.session_id == session_id && opened.stream == stream,
        opened.phase == StreamPhase::<E>::Reading,
        next.db_path == capture.db_path && next.session_id == capture.session_id && next.stream
            == capture.stream,
        next.phase == capture.phase.after(reply),
        task is Some <==> capture.phase is Appending,
        task matches Some(append) ==> {
            &&& append.db_path == capture.db_path
            &&& append.stage == StoreStage::<E>::Opening
            &&& append.write matches StoreWrite::AppendLine { session_id: id, stream: from, line }
            &&& id == capture.session_id
            &&& from == capture.stream
            &&& capture.phase matches StreamPhase::Appending(text)
            &&& line@ == text@
        },
{
}

/// A write names the store, the session and what is written, as they were given.
pub proof fn writes_are_faithful<'a, E>(
    path: &'a PathBuf,
    session_id: &'a str,
    stream: OutputStream,
    line: &'a str,
    state: SessionState,
    append: StoreTask<'a, E>,
    update: StoreTask<'a, E>,
)
    requires
        call_ensures(append_output_line::<E>, (path, session_id, stream, line), append),
        call_ensures(update_session_state::<E>, (path, session_id, state), update),
    ensures
        append.db_path == path && update.db_path == path,
        append.write == (StoreWrite::AppendLine { session_id, stream, line }),
        update.write == (StoreWrite::SetState { session_id, state }),
        append.stage == StoreStage::<E>::Opening && update.stage == StoreStage::<E>::Opening,
{
}

/// A write that has ended stays ended, with the outcome that it had.
pub proof fn a_finished_write_stays_finished<E>(outcome: Result<(), E>, reply: Result<(), E>)
    ensures
        stage_after(StoreStage::Finished(outcome), reply) == StoreStage::<E>::Finished(outcome),
{
}

/// A write goes on with the same store and the same content. Once the store is open it is
/// performed, and it ends with the first failure, or well if there was none.
pub proof fn a_write_is_performed_once_the_store_is_open<'a, E>(
    task: StoreTask<'a, E>,
    reply: Result<(), E>,
    next: StoreTask<'a, E>,
)
    requires
        call_ensures(StoreTask::<'a, E>::answer, (task, reply), next),
    ensures
        next.db_path == task.db_path && next.write == task.write,
        task.stage is Opening && reply is Ok ==> next.stage == StoreStage::<E>::Writing,
        task.stage is Opening && reply is Err ==> next.stage == StoreStage::<E>::Finished(reply),
        task.stage is Writing ==> next.stage == StoreStage::<E>::Finished(reply),
        task.stage is Finished ==> next.stage == task.stage,
{
}

/// A reply that does not answer the command of the moment is passed over.
pub proof fn stray_replies_do_not_move_a_run<S, E>(
    phase: CapturePhase<S, E>,
    reply: CaptureReply<S, E>,
)
    ensures
        reply is Absent && !(phase.command() is TakePipe) ==> phase.after(reply) == phase,
        reply is Exited && phase.command() != CaptureCommand::Wait ==> phase.after(reply) == phase,
        reply is Failed && (phase.command() is TakePipe || phase.command() is SpawnCapture)
            ==> phase.after(reply) == phase,
        reply is Done && phase.command() == CaptureCommand::Wait ==> phase.after(reply) == phase,
        phase.command() == CaptureCommand::Return ==> phase.after(reply) == phase,
        phase.command() == CaptureCommand::Return <==> phase is Finished,
{
}

/// A run in which every step goes well goes through all of its steps, in order, and returns
/// the status that the process exited with. The session is running once the process has been
/// started, and in the end it is completed if the process succeeded, and failed if it did not.
pub proof fn a_clean_run_goes_through_all_steps<S, E>(status: S, success: bool)
    ensures
        ({
            let done = CaptureReply::<S, E>::Done;
            let p0 = CapturePhase::<S, E>::Starting;
            let p1 = p0.after(done);
            let p2 = p1.after(done);
            let p3 = p2.after(done);
            let p4 = p3.after(done);
            let p5 = p4.after(done);
            let p6 = p5.after(done);
            let p7 = p6.after(CaptureReply::Exited { status, success });
            let p8 = p7.after(done);
            let p9 = p8.after(done);
            let p10 = p9.after(done);
            &&& p0.command() == CaptureCommand::Start
            &&& p1.command() == CaptureCommand::SetState(SessionState::Running)
            &&& p2.command() == CaptureCommand::TakePipe(OutputStream::Stdout)
            &&& p3.command() == CaptureCommand::TakePipe(OutputStream::Stderr)
            &&& p4.command() == CaptureCommand::SpawnCapture(OutputStream::Stdout)
            &&& p5.command() == CaptureCommand::SpawnCapture(OutputStream::Stderr)
            &&& p6.command() == CaptureCommand::Wait
            &&& p7.command() == CaptureCommand::JoinCapture(OutputStream::Stdout)
            &&& p8.command() == CaptureCommand::JoinCapture(OutputStream::Stderr)
            &&& success ==> p9.command() == CaptureCommand::SetState(SessionState::Completed)
            &&& !success ==> p9.command() == CaptureCommand::SetState(SessionState::Failed)
            &&& p10.command() == CaptureCommand::Return
            &&& p10 == CapturePhase::<S, E>::Finished(Ok(status))
        }),
{
}

/// Whichever step fails, the session is recorded as failed next, and whether that goes well or
/// not, the run returns what went wrong: that the process did not start, that one of its
/// streams is not there, or the error of a later step.
pub proof fn a_failed_step_fails_the_run<S, E>(
    status: S,
    success: bool,
    error: E,
    marked: CaptureReply<S, E>,
)
    requires
        marked is Done || marked is Failed,
    ensures
        ({
            let done = CaptureReply::<S, E>::Done;
            let failed = CaptureReply::<S, E>::Failed(error);
            let absent = CaptureReply::<S, E>::Absent;
            let p0 = CapturePhase::<S, E>::Starting;
            let p1 = p0.after(done);
            let p2 = p1.after(done);
            let p3 = p2.after(done);
            let p6 = p3.after(done).after(done).after(done);
            let p7 = p6.after(CaptureReply::Exited { status, success });
            let p8 = p7.after(done);
            let p9 = p8.after(done);
            &&& fails_with(p0, failed, marked, CaptureError::Start(error))
            &&& fails_with(p1, failed, marked, CaptureError::Step(error))
            &&& fails_with(p2, absent, marked, CaptureError::NoStdout)
            &&& fails_with(p3, absent, marked, CaptureError::NoStderr)
            &&& fails_with(p6, failed, marked, CaptureError::Step(error))
            &&& fails_with(p7, failed, marked, CaptureError::Step(error))
            &&& fails_with(p8, failed, marked, CaptureError::Step(error))
            &&& fails_with(p9, failed, marked, CaptureError::Step(error))
        }),
{
}

/// Whether `reply` in `phase` has the session recorded as failed, and the run then return
/// `error` once that has been answered with `marked`.
pub open spec fn fails_with<S, E>(
    phase: CapturePhase<S, E>,
    reply: CaptureReply<S, E>,
    marked: CaptureReply<S, E>,
    error: CaptureError<E>,
) -> bool {
    &&& phase.after(reply).command() == CaptureCommand::SetState(SessionState::Failed)
    &&& phase.after(reply).after(marked) == CapturePhase::<S, E>::Finished(Err(error))
    &&& phase.after(reply).after(marked).command() == CaptureCommand::Return
}

/// One more reply is taken note of after all the earlier ones, and where it answers the command
/// of the moment, that command counts as done.
pub proof fn replies_are_taken_in_turn<S, E>(
    phase: CapturePhase<S, E>,
    replies: Seq<CaptureReply<S, E>>,
    reply: CaptureReply<S, E>,
)
    ensures
        reached(phase, Seq::<CaptureReply<S, E>>::empty()) == phase,
        reached(phase, replies.push(reply)) == reached(phase, replies).after(reply),
        reply is Done ==> match reached(phase, replies).command() {
            CaptureCommand::SetState(state) => recorded(phase, replies.push(reply)) == recorded(
                phase,
                replies,
            ).push(state),
            _ => recorded(phase, replies.push(reply)) == recorded(phase, replies),
        },
        !(reply is Done) ==> recorded(phase, replies.push(reply)) == recorded(phase, replies),
{
    assert(replies.push(reply).drop_last() =~= replies);
}

/// What a run asks for is what its phase asks for; a state that is to be recorded is written to
/// the run's store, for the run's session.
pub proof fn a_state_is_recorded_where_it_belongs<'a, S, E>(
    capture: &Capture<'a, S, E>,
    command: CaptureCommand,
    task: Option<StoreTask<'a, E>>,
    reply: CaptureReply<S, E>,
    next: Capture<'a, S, E>,
    outcome: Option<Result<S, CaptureError<E>>>,
)
    requires
        call_ensures(Capture::<'a, S, E>::command, (capture,), command),
        call_ensures(Capture::<'a, S, E>::state_task, (capture,), task),
        call_ensures(Capture::<'a, S, E>::answer, (*capture, reply), next),
        call_ensures(Capture::<'a, S, E>::into_outcome, (*capture,), outcome),
    ensures
        task is Some <==> command is SetState,
        command matches CaptureCommand::SetState(state) ==> {
            &&& task matches Some(update)
            &&& update.db_path == capture.db_path
            &&& update.write == (StoreWrite::SetState { session_id: capture.session_id, state })
            &&& update.stage == StoreStage::<E>::Opening
        },
        command == capture.phase.command(),
        next.db_path == capture.db_path && next.session_id == capture.session_id,
        next.phase == capture.phase.after(reply),
        outcome is Some <==> command is Return,
        outcome matches Some(result) ==> capture.phase == CapturePhase::<S, E>::Finished(result),
{
}

/// A run begins with starting the process, for the session and the store that it was given.
pub proof fn a_run_begins_with_the_start<'a, S, E>(
    path: &'a PathBuf,
    session_id: &'a str,
    capture: Capture<'a, S, E>,
)
    requires
        call_ensures(capture_command_output::<S, E>, (path, session_id), capture),
    ensures
        capture.db_path == path && capture.session_id == session_id,
        capture.phase == CapturePhase::<S, E>::Starting,
        capture.phase.command() == CaptureCommand::Start,
{
}

/// What a run that failed says: which session could not be started, or which stream is not
/// there. A later step's error speaks for itself.
pub proof fn failures_are_explained<E>(
    error: &CaptureError<E>,
    session_id: &str,
    sentence: Option<String>,
)
    requires
        call_ensures(CaptureError::<E>::explanation, (error, session_id), sentence),
    ensures
        sentence is None <==> error is Step,
        error is Start ==> sentence->0@ == "Failed to start process for session "@ + session_id@,
        error is NoStdout ==> sentence->0@ == "Child stdout was not piped"@,
        error is NoStderr ==> sentence->0@ == "Child stderr was not piped"@,
{
}

} // verus!
