//! Capturing one output stream of a session's process, line by line.
//!
//! Every line that is read is first handed to the live output, for whoever is watching, and
//! then appended to the stored output. [`StreamCapture`] decides what is to be done next; a
//! driver does it and answers.

use std::path::PathBuf;

use vstd::prelude::*;

use crate::session::OutputStream;
use crate::session::store::{append_output_line, StoreStage, StoreTask, StoreWrite};

verus! {

/// What a stream's capture is waiting for.
#[derive(Debug)]
pub enum StreamPhase<E> {
    /// The next line is to be read.
    Reading,
    /// The line is to be handed to the live output.
    Pushing(String),
    /// The line is to be appended to the stored output.
    Appending(String),
    /// Nothing is left to do.
    Finished(Result<(), E>),
}

/// How the last step went.
#[derive(Debug)]
pub enum StreamReply<E> {
    /// A line was read.
    Line(String),
    /// The stream has ended.
    End,
    /// The line was pushed or appended.
    Done,
    /// Reading or appending failed.
    Failed(E),
}

/// The capture of one stream of the process of session `session_id`.
#[derive(Debug)]
pub struct StreamCapture<'a, E> {
    pub db_path: &'a PathBuf,
    pub session_id: &'a str,
    pub stream: OutputStream,
    pub phase: StreamPhase<E>,
}

impl<E> StreamPhase<E> {
    /// The phase that follows `reply`. A reply that does not answer the phase's step leaves
    /// the phase as it is.
    pub open spec fn after(self, reply: StreamReply<E>) -> StreamPhase<E> {
        match (self, reply) {
            (StreamPhase::Reading, StreamReply::Line(line)) => StreamPhase::Pushing(line),
            (StreamPhase::Reading, StreamReply::End) => StreamPhase::Finished(Ok(())),
            (StreamPhase::Reading, StreamReply::Failed(error)) => StreamPhase::Finished(Err(error)),
            (StreamPhase::Pushing(line), StreamReply::Done) => StreamPhase::Appending(line),
            (StreamPhase::Appending(_), StreamReply::Done) => StreamPhase::Reading,
            (StreamPhase::Appending(_), StreamReply::Failed(error)) => StreamPhase::Finished(
                Err(error),
            ),
            (phase, _) => phase,
        }
    }
}

/// The capture of `stream`, about to read its first line.
pub fn capture_stream<'a, E>(
    db_path: &'a PathBuf,
    session_id: &'a str,
    stream: OutputStream,
) -> (capture: StreamCapture<'a, E>)
    ensures
        capture.db_path == db_path,
        capture.session_id == session_id,
        capture.stream == stream,
        capture.phase == StreamPhase::<E>::Reading,
{
    StreamCapture { db_path, session_id, stream, phase: StreamPhase::Reading }
}

impl<'a, E> StreamCapture<'a, E> {
    /// The write to the store that [`StreamPhase::Appending`] asks for.
    pub fn append_task<'b>(&'b self) -> (task: Option<StoreTask<'b, E>>)
        ensures
            match self.phase {
                StreamPhase::Appending(line) => {
                    &&& task matches Some(append)
                    &&& append.db_path == self.db_path
                    &&& append.write matches StoreWrite::AppendLine {
                        session_id,
                        stream,
                        line: text,
                    }
                    &&& session_id == self.session_id
                    &&& stream == self.stream
                    &&& text@ == line@
                    &&& append.stage == StoreStage::<E>::Opening
                },
                _ => task is None,
            },
    {
        match &self.phase {
            StreamPhase::Appending(line) => Some(
                append_output_line(self.db_path, self.session_id, self.stream, line.as_str()),
            ),
            _ => None,
        }
    }

    /// Takes note of how the step that the phase asks for went.
    pub fn answer(self, reply: StreamReply<E>) -> (next: StreamCapture<'a, E>)
        ensures
            next.db_path == self.db_path,
            next.session_id == self.session_id,
            next.stream == self.stream,
            next.phase == self.phase.after(reply),
    {
        let phase = match (self.phase, reply) {
            (StreamPhase::Reading, StreamReply::Line(line)) => StreamPhase::Pushing(line),
            (StreamPhase::Reading, StreamReply::End) => StreamPhase::Finished(Ok(())),
            (StreamPhase::Reading, StreamReply::Failed(error)) => StreamPhase::Finished(Err(error)),
            (StreamPhase::Pushing(line), StreamReply::Done) => StreamPhase::Appending(line),
            (StreamPhase::Appending(_), StreamReply::Done) => StreamPhase::Reading,
            (StreamPhase::Appending(_), StreamReply::Failed(error)) => StreamPhase::Finished(
                Err(error),
            ),
            (phase, _) => phase,
        };
        StreamCapture {
            db_path: self.db_path,
            session_id: self.session_id,
            stream: self.stream,
            phase,
        }
    }
}

/// The phase that is reached from `phase` when the driver answers with `replies`.
pub open spec fn stream_reached<E>(phase: StreamPhase<E>, replies: Seq<StreamReply<E>>) -> StreamPhase<
    E,
>
    decreases replies.len(),
{
    if replies.len() == 0 {
        phase
    } else {
        stream_reached(phase, replies.drop_last()).after(replies.last())
    }
}

/// The lines that were read, in order, from a capture that starts by reading.
pub open spec fn lines_read<E>(replies: Seq<StreamReply<E>>) -> Seq<Seq<char>>
    decreases replies.len(),
{
    if replies.len() == 0 {
        Seq::empty()
    } else {
        let lines = lines_read(replies.drop_last());
        match (stream_reached(StreamPhase::Reading, replies.drop_last()), replies.last()) {
            (StreamPhase::Reading, StreamReply::Line(line)) => lines.push(line@),
            _ => lines,
        }
    }
}

/// The lines that were handed to the live output, in order.
pub open spec fn lines_pushed<E>(replies: Seq<StreamReply<E>>) -> Seq<Seq<char>>
    decreases replies.len(),
{
    if replies.len() == 0 {
        Seq::empty()
    } else {
        let lines = lines_pushed(replies.drop_last());
        match (stream_reached(StreamPhase::Reading, replies.drop_last()), replies.last()) {
            (StreamPhase::Pushing(line), StreamReply::Done) => lines.push(line@),
            _ => lines,
        }
    }
}

/// The lines that were appended to the stored output, in order.
pub open spec fn lines_appended<E>(replies: Seq<StreamReply<E>>) -> Seq<Seq<char>>
    decreases replies.len(),
{
    if replies.len() == 0 {
        Seq::empty()
    } else {
        let lines = lines_appended(replies.drop_last());
        match (stream_reached(StreamPhase::Reading, replies.drop_last()), replies.last()) {
            (StreamPhase::Appending(line), StreamReply::Done) => lines.push(line@),
            _ => lines,
        }
    }
}

/// No line is lost, changed, repeated or moved: the lines that were pushed are the lines
/// that were read, and the lines that were appended are the lines that were pushed, up to
/// the one line that is on its way. A line is pushed before it is appended.
pub proof fn lines_are_captured_in_order<E>(replies: Seq<StreamReply<E>>)
    ensures
        match stream_reached(StreamPhase::Reading, replies) {
            StreamPhase::Reading => lines_pushed(replies) == lines_read(replies) && lines_appended(
                replies,
            ) == lines_read(replies),
            StreamPhase::Pushing(line) => lines_read(replies) == lines_pushed(replies).push(line@)
                && lines_appended(replies) == lines_pushed(replies),
            StreamPhase::Appending(line) => lines_pushed(replies) == lines_read(replies)
                && lines_read(replies) == lines_appended(replies).push(line@),
            StreamPhase::Finished(Ok(_)) => lines_pushed(replies) == lines_read(replies)
                && lines_appended(replies) == lines_read(replies),
            StreamPhase::Finished(Err(_)) => lines_pushed(replies) == lines_read(replies) && {
                ||| lines_appended(replies) == lines_read(replies)
                ||| lines_read(replies).len() > 0 && lines_appended(replies) == lines_read(
                    replies,
                ).drop_last()
            },
        },
    decreases replies.len(),
{
    if replies.len() > 0 {
        let earlier = replies.drop_last();
        lines_are_captured_in_order(earlier);
        match stream_reached(StreamPhase::<E>::Reading, earlier) {
            StreamPhase::Appending(line) => {
                assert(lines_read(earlier).drop_last() =~= lines_appended(earlier));
            },
            _ => {},
        }
    }
}

} // verus!
