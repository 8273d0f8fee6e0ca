//! The decisions of the streaming file writer.
//!
//! The writer stores a stream of chunks in one file. It creates the file
//! (or empties an old one), then takes one chunk at a time and appends it,
//! so that no more than one chunk is held in memory. The first thing that
//! goes wrong ends the work with an error. When the stream has ended, the
//! file is flushed, and only then is the work done.
//!
//! The caller does what `FileWriter::action` says and reports what came of it
//! to `FileWriter::step`.

use vstd::prelude::*;
use crate::writer::model::{Action, Event, Stage, Writing, action_of, initial, next};

pub mod model;
pub mod runs;

verus! {

/// What went wrong while a file was written.
#[derive(Debug, Clone, Copy, PartialEq, Eq, Structural)]
pub enum WriteError {
    /// The file could not be created.
    Create,
    /// The stream failed to give its next chunk.
    Read,
    /// A chunk could not be appended to the file.
    Write,
    /// The file could not be flushed.
    Flush,
}

/// What the caller reports to the writer.
#[derive(Debug)]
pub enum WriterEvent {
    /// The file was created or emptied, or could not be.
    Created { ok: bool },
    /// The stream gave its next chunk.
    Chunk { data: Vec<u8> },
    /// The stream failed to give its next chunk.
    ChunkFailed,
    /// The stream has ended.
    StreamEnded,
    /// The chunk in hand was appended to the file, or could not be.
    Written { ok: bool },
    /// The file was flushed, or could not be.
    Flushed { ok: bool },
}

impl View for WriterEvent {
    type V = Event;

    open spec fn view(&self) -> Event {
        match *self {
            WriterEvent::Created { ok } => Event::Created { ok },
            WriterEvent::Chunk { data } => Event::Chunk { data: data@ },
            WriterEvent::ChunkFailed => Event::ChunkFailed,
            WriterEvent::StreamEnded => Event::StreamEnded,
            WriterEvent::Written { ok } => Event::Written { ok },
            WriterEvent::Flushed { ok } => Event::Flushed { ok },
        }
    }
}

/// What the caller is to do next. The data belong to the writer.
#[derive(Debug, Clone, Copy)]
pub enum WriterAction<'a> {
    /// Create the file at `path`, or empty it if it exists.
    Create { path: &'a str },
    /// Fetch the stream's next chunk and report it.
    Pull,
    /// Append `data` to the file, all of it.
    Append { data: &'a [u8] },
    /// Flush the file.
    Flush,
    /// Close the file and return `result`. The work is done.
    Finish { result: Result<(), WriteError> },
}

impl<'a> View for WriterAction<'a> {
    type V = Action;

    open spec fn view(&self) -> Action {
        match *self {
            WriterAction::Create { path } => Action::Create { path: path@ },
            WriterAction::Pull => Action::Pull,
            WriterAction::Append { data } => Action::Append { data: data@ },
            WriterAction::Flush => Action::Flush,
            WriterAction::Finish { result } => Action::Finish { result },
        }
    }
}

enum Step {
    Creating,
    AwaitingChunk,
    WritingChunk { chunk: Vec<u8> },
    Flushing,
    Done,
    Failed { error: WriteError },
}

/// The writer of one file.
pub struct FileWriter {
    path: String,
    step: Step,
    written: Ghost<Seq<u8>>,
}

impl View for FileWriter {
    type V = Writing;

    closed spec fn view(&self) -> Writing {
        Writing {
            stage: match self.step {
                Step::Creating => Stage::Creating,
                Step::AwaitingChunk => Stage::AwaitingChunk,
                Step::WritingChunk { chunk } => Stage::WritingChunk { chunk: chunk@ },
                Step::Flushing => Stage::Flushing,
                Step::Done => Stage::Done,
                Step::Failed { error } => Stage::Failed { error },
            },
            path: self.path@,
            written: self.written@,
        }
    }
}

impl FileWriter {
    /// A writer for the file at `path`, before anything is done.
    pub fn new(path: String) -> (writer: FileWriter)
        ensures
            writer@ == initial(path@),
    {
        FileWriter { path, step: Step::Creating, written: Ghost(Seq::empty()) }
    }

    /// Takes in what the caller reports. A report that the writer does not
    /// wait for changes nothing.
    pub fn step(self, event: WriterEvent) -> (writer: FileWriter)
        ensures
            writer@ == next(self@, event@),
    {
        let FileWriter { path, step, written } = self;
        match (step, event) {
            (Step::Creating, WriterEvent::Created { ok }) => {
                if ok {
                    FileWriter { path, step: Step::AwaitingChunk, written: Ghost(Seq::empty()) }
                } else {
                    FileWriter { path, step: Step::Failed { error: WriteError::Create }, written }
                }
            },
            (Step::AwaitingChunk, WriterEvent::Chunk { data }) => FileWriter {
                path,
                step: Step::WritingChunk { chunk: data },
                written,
            },
            (Step::AwaitingChunk, WriterEvent::ChunkFailed) => FileWriter {
                path,
                step: Step::Failed { error: WriteError::Read },
                written,
            },
            (Step::AwaitingChunk, WriterEvent::StreamEnded) => FileWriter {
                path,
                step: Step::Flushing,
                written,
            },
            (Step::WritingChunk { chunk }, WriterEvent::Written { ok }) => {
                if ok {
                    FileWriter {
                        path,
                        step: Step::AwaitingChunk,
                        written: Ghost(written@ + chunk@),
                    }
                } else {
                    FileWriter { path, step: Step::Failed { error: WriteError::Write }, written }
                }
            },
            (Step::Flushing, WriterEvent::Flushed { ok }) => {
                if ok {
                    FileWriter { path, step: Step::Done, written }
                } else {
                    FileWriter { path, step: Step::Failed { error: WriteError::Flush }, written }
                }
            },
            (step, _) => FileWriter { path, step, written },
        }
    }

    /// What the caller is to do next.
    pub fn action(&self) -> (action: WriterAction<'_>)
        ensures
            action@ == action_of(self@),
    {
        match &self.step {
            Step::Creating => WriterAction::Create { path: self.path.as_str() },
            Step::AwaitingChunk => WriterAction::Pull,
            Step::WritingChunk { chunk } => WriterAction::Append { data: chunk.as_slice() },
            Step::Flushing => WriterAction::Flush,
            Step::Done => WriterAction::Finish { result: Ok(()) },
            Step::Failed { error } => WriterAction::Finish { result: Err(*error) },
        }
    }
}

} // verus!
