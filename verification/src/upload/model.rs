//! The handling of a request as a state machine over plain values.

use vstd::prelude::*;
use crate::names::{
    all_have_name_shape, drawn_name, extension, extension_for, is_drawn_name, is_generated_name,
    last_dot_found, path_of,
};
use crate::notice::{Level, uploaded_line, uploading_line, write_failed_line};
use crate::response::{STATUS_FAILED, STATUS_FORBIDDEN, STATUS_OK, joined};

verus! {

/// Where the handling of a request stands.
pub enum Phase {
    /// The credential has not been looked up yet.
    AwaitingAuth,
    /// The credential is unknown. Nothing more happens.
    Unauthorized,
    /// The credential is known, and the next part is awaited. `names` are
    /// the names of the parts stored so far.
    ProcessingParts { names: Seq<Seq<char>> },
    /// A part is being written under `name`; it declared the file name
    /// `original`.
    WritingPart { names: Seq<Seq<char>>, name: Seq<char>, original: Seq<char> },
    /// A part could not be written. Nothing more happens.
    PartFailed,
    /// All parts are stored, under `names`.
    AllPartsDone { names: Seq<Seq<char>> },
}

/// What can happen to a request.
pub enum Event {
    /// The credential was looked up; `identifier` is what the store maps it
    /// to.
    Credential { identifier: Option<Seq<char>> },
    /// A part arrived, with the file name that it declares.
    Part { filename: Option<Seq<char>> },
    /// The next part cannot be read. It is passed over.
    PartUnreadable,
    /// The parts have ended.
    PartsEnded,
    /// The part in hand was written, or could not be.
    Written { ok: bool },
}

/// What is to be done for a request.
pub enum Action {
    /// Present the credential.
    CheckCredential,
    /// Fetch the next part.
    ReadPart,
    /// Write the part in hand to the file at `path`, which is the file of
    /// this name in the uploads directory.
    WritePart { name: Seq<char>, path: Seq<char> },
    /// Send the answer.
    Respond { status: u16, body: Seq<char> },
}

/// The file name by which the log calls a part.
pub open spec fn original_label(filename: Option<Seq<char>>) -> Seq<char> {
    match filename {
        Some(f) => f,
        None => "<none>"@,
    }
}

/// The name under which the part in hand is being written, if there is one.
pub open spec fn name_in_hand(phase: Phase) -> Seq<char> {
    match phase {
        Phase::WritingPart { name, .. } => name,
        _ => Seq::empty(),
    }
}

/// The phase that follows `pre` on `event`, where `fresh` is the name that a
/// part gets. A part that cannot be read is passed over: it is no error and
/// does not end the parts, and the next part is awaited as before. An event
/// that `pre` does not wait for changes nothing.
pub open spec fn next_phase(pre: Phase, event: Event, fresh: Seq<char>) -> Phase {
    match (pre, event) {
        (Phase::AwaitingAuth, Event::Credential { identifier }) => if identifier is Some {
            Phase::ProcessingParts { names: Seq::empty() }
        } else {
            Phase::Unauthorized
        },
        (Phase::ProcessingParts { names }, Event::Part { filename }) => Phase::WritingPart {
            names,
            name: fresh,
            original: original_label(filename),
        },
        (Phase::ProcessingParts { names }, Event::PartUnreadable) => Phase::ProcessingParts {
            names,
        },
        (Phase::ProcessingParts { names }, Event::PartsEnded) => Phase::AllPartsDone { names },
        (Phase::WritingPart { names, name, .. }, Event::Written { ok }) => if ok {
            Phase::ProcessingParts { names: names.push(name) }
        } else {
            Phase::PartFailed
        },
        _ => pre,
    }
}

/// Whether a part gets its name in the step from `pre` on `event`.
pub open spec fn names_a_part(pre: Phase, event: Event) -> bool {
    pre is ProcessingParts && event is Part
}

/// Whether `post` may follow `pre` on `event`. All of `post` is determined
/// but the name that a part gets: that is the name that the step's draws
/// give the part, whatever they are.
pub open spec fn follows(pre: Phase, event: Event, post: Phase) -> bool {
    &&& post == next_phase(pre, event, name_in_hand(post))
    &&& names_a_part(pre, event) ==> is_drawn_name(name_in_hand(post), event->filename)
}

/// The phase that follows `pre` on `event` where `draws` are the step's
/// draws.
pub open spec fn next_phase_drawn(pre: Phase, event: Event, draws: Seq<u32>) -> Phase {
    next_phase(
        pre,
        event,
        if event is Part {
            drawn_name(event->filename, draws)
        } else {
            Seq::empty()
        },
    )
}

/// The line that the step from `pre` on `event` leaves in the log.
pub open spec fn notice_of(pre: Phase, event: Event) -> Option<(Level, Seq<char>)> {
    match (pre, event) {
        (Phase::AwaitingAuth, Event::Credential { identifier: Some(id) }) => Some(
            uploading_line(id),
        ),
        (Phase::WritingPart { name, original, .. }, Event::Written { ok }) => Some(
            if ok {
                uploaded_line(name, original)
            } else {
                write_failed_line(name, original)
            },
        ),
        _ => None,
    }
}

/// What is to be done in `phase`. A request with an unknown credential is
/// answered with 403, one with a part that could not be written with 500,
/// both with an empty body. A request whose parts are all stored is answered
/// with 200 and the names of the parts, one per line.
pub open spec fn action_of(phase: Phase) -> Action {
    match phase {
        Phase::AwaitingAuth => Action::CheckCredential,
        Phase::Unauthorized => Action::Respond { status: STATUS_FORBIDDEN, body: Seq::empty() },
        Phase::ProcessingParts { .. } => Action::ReadPart,
        Phase::WritingPart { name, .. } => Action::WritePart { name, path: path_of(name) },
        Phase::PartFailed => Action::Respond { status: STATUS_FAILED, body: Seq::empty() },
        Phase::AllPartsDone { names } => Action::Respond { status: STATUS_OK, body: joined(names) },
    }
}

/// Whether the names that `phase` holds are generated names, and the one in
/// hand is one for the part in hand.
pub open spec fn well_formed(phase: Phase) -> bool {
    match phase {
        Phase::ProcessingParts { names } => all_have_name_shape(names),
        Phase::AllPartsDone { names } => all_have_name_shape(names),
        Phase::WritingPart { names, name, original } => all_have_name_shape(names)
            && is_generated_name(name, Some(original)),
        _ => true,
    }
}

/// The log's word for a missing file name holds no `.`: a part without a
/// file name is named like one that declares that word.
pub proof fn label_has_extension_of(filename: Option<Seq<char>>)
    ensures
        extension(original_label(filename)) == extension_for(filename),
{
    if filename is None {
        reveal_strlit("<none>");
        last_dot_found("<none>"@, -1);
    }
}

} // verus!
