//! The writer as a state machine over plain values.

use vstd::prelude::*;
use crate::writer::WriteError;

verus! {

/// Where the writing of a file stands.
pub enum Stage {
    /// The file is to be created.
    Creating,
    /// The next chunk is awaited.
    AwaitingChunk,
    /// `chunk` is being appended to the file.
    WritingChunk { chunk: Seq<u8> },
    /// The stream has ended, and the file is being flushed.
    Flushing,
    /// The file is complete.
    Done,
    /// The work has ended with `error`.
    Failed { error: WriteError },
}

/// The writing of one file: where it stands, and what the file holds.
pub struct Writing {
    pub stage: Stage,
    /// The path of the file.
    pub path: Seq<char>,
    /// The bytes of the chunks appended to the file so far.
    pub written: Seq<u8>,
}

/// What can happen while a file is written.
pub enum Event {
    /// The file was created or emptied, or could not be.
    Created { ok: bool },
    /// The stream gave its next chunk.
    Chunk { data: Seq<u8> },
    /// The stream failed to give its next chunk.
    ChunkFailed,
    /// The stream has ended.
    StreamEnded,
    /// The chunk in hand was appended to the file, or could not be.
    Written { ok: bool },
    /// The file was flushed, or could not be.
    Flushed { ok: bool },
}

/// What is to be done for a file.
pub enum Action {
    /// Create the file at `path`, or empty it if it exists.
    Create { path: Seq<char> },
    /// Fetch the stream's next chunk.
    Pull,
    /// Append `data` to the file.
    Append { data: Seq<u8> },
    /// Flush the file.
    Flush,
    /// Close the file and return `result`.
    Finish { result: Result<(), WriteError> },
}

/// The writing of the file at `path` before anything is done.
pub open spec fn initial(path: Seq<char>) -> Writing {
    Writing { stage: Stage::Creating, path, written: Seq::empty() }
}

/// The state that follows `pre` on `event`. An event that `pre` does not wait
/// for changes nothing.
pub open spec fn next(pre: Writing, event: Event) -> Writing {
    match (pre.stage, event) {
        (Stage::Creating, Event::Created { ok }) => if ok {
            Writing { stage: Stage::AwaitingChunk, written: Seq::empty(), ..pre }
        } else {
            Writing { stage: Stage::Failed { error: WriteError::Create }, ..pre }
        },
        (Stage::AwaitingChunk, Event::Chunk { data }) => Writing {
            stage: Stage::WritingChunk { chunk: data },
            ..pre
        },
        (Stage::AwaitingChunk, Event::ChunkFailed) => Writing {
            stage: Stage::Failed { error: WriteError::Read },
            ..pre
        },
        (Stage::AwaitingChunk, Event::StreamEnded) => Writing { stage: Stage::Flushing, ..pre },
        (Stage::WritingChunk { chunk }, Event::Written { ok }) => if ok {
            Writing { stage: Stage::AwaitingChunk, written: pre.written + chunk, ..pre }
        } else {
            Writing { stage: Stage::Failed { error: WriteError::Write }, ..pre }
        },
        (Stage::Flushing, Event::Flushed { ok }) => if ok {
            Writing { stage: Stage::Done, ..pre }
        } else {
            Writing { stage: Stage::Failed { error: WriteError::Flush }, ..pre }
        },
        _ => pre,
    }
}

/// What is to be done in the state `w`.
pub open spec fn action_of(w: Writing) -> Action {
    match w.stage {
        Stage::Creating => Action::Create { path: w.path },
        Stage::AwaitingChunk => Action::Pull,
        Stage::WritingChunk { chunk } => Action::Append { data: chunk },
        Stage::Flushing => Action::Flush,
        Stage::Done => Action::Finish { result: Ok(()) },
        Stage::Failed { error } => Action::Finish { result: Err(error) },
    }
}

} // verus!
