//! The decisions of one upload request.
//!
//! A request is handled in turns. The caller asks what is to be done next
//! (`Upload::action`), does it, and reports what came of it
//! (`Upload::authorize`, `Upload::step`). The credential is looked up once,
//! before any part is read. Parts are then taken one at a time: each gets a
//! fresh name and is written under it before the next one is read. A part
//! that cannot be read is passed over. The first part that cannot be
//! written ends the request.

use vstd::prelude::*;
use crate::credentials::{CredentialStore, check_key, lookup};
use crate::names::{generate_name, generated_name_has_shape, upload_path};
use crate::notice::{
    Notice, opt_notice_view, uploaded_notice, uploading_notice, write_failed_notice,
};
use crate::response::{UploadResponse, lines_view};
use crate::text::opt_string_view;
use crate::upload::model::{
    Action, Event, Phase, action_of, follows, label_has_extension_of, notice_of, well_formed,
};
use crate::writer::WriteError;

pub mod model;
pub mod runs;

verus! {

/// What the caller reports of the parts of a request.
#[derive(Debug)]
pub enum PartEvent {
    /// A part arrived, with the file name that it declares.
    Part { filename: Option<String> },
    /// The next part cannot be read. It is passed over: the request goes on
    /// with the part after it.
    PartUnreadable,
    /// The parts have ended.
    PartsEnded,
    /// The writing of the part in hand has ended, with this result.
    Written { result: Result<(), WriteError> },
}

impl View for PartEvent {
    type V = Event;

    open spec fn view(&self) -> Event {
        match *self {
            PartEvent::Part { filename } => Event::Part { filename: opt_string_view(filename) },
            PartEvent::PartUnreadable => Event::PartUnreadable,
            PartEvent::PartsEnded => Event::PartsEnded,
            PartEvent::Written { result } => Event::Written { ok: result is Ok },
        }
    }
}

/// What the caller is to do next.
#[derive(Debug)]
pub enum UploadAction {
    /// Present the credential (`Upload::authorize`).
    CheckCredential,
    /// Fetch the next part and report it.
    ReadPart,
    /// Write the part in hand to the file at `path`, and report whether
    /// that worked. `path` is the file called `name` in the uploads
    /// directory.
    WritePart { name: String, path: String },
    /// Send this answer. The request is done.
    Respond { response: UploadResponse },
}

impl View for UploadAction {
    type V = Action;

    open spec fn view(&self) -> Action {
        match *self {
            UploadAction::CheckCredential => Action::CheckCredential,
            UploadAction::ReadPart => Action::ReadPart,
            UploadAction::WritePart { name, path } => Action::WritePart {
                name: name@,
                path: path@,
            },
            UploadAction::Respond { response } => Action::Respond {
                status: response.status,
                body: response.body@,
            },
        }
    }
}

enum State {
    AwaitingAuth,
    Unauthorized,
    ProcessingParts { names: Vec<String> },
    WritingPart { names: Vec<String>, name: String, original: String },
    PartFailed,
    AllPartsDone { names: Vec<String> },
}

/// The handling of one upload request.
pub struct Upload {
    state: State,
}

impl View for Upload {
    type V = Phase;

    closed spec fn view(&self) -> Phase {
        match self.state {
            State::AwaitingAuth => Phase::AwaitingAuth,
            State::Unauthorized => Phase::Unauthorized,
            State::ProcessingParts { names } => Phase::ProcessingParts {
                names: lines_view(names@),
            },
            State::WritingPart { names, name, original } => Phase::WritingPart {
                names: lines_view(names@),
                name: name@,
                original: original@,
            },
            State::PartFailed => Phase::PartFailed,
            State::AllPartsDone { names } => Phase::AllPartsDone { names: lines_view(names@) },
        }
    }
}

impl Upload {
    #[verifier::type_invariant]
    spec fn names_are_generated(self) -> bool {
        well_formed(self@)
    }

    /// A request whose credential has not been looked up yet.
    pub fn new() -> (upload: Upload)
        ensures
            upload@ == Phase::AwaitingAuth,
    {
        Upload { state: State::AwaitingAuth }
    }

    /// Looks the request's credential up in `store`, once: a request that
    /// is past that is left as it is. `store` is `None` where the store could
    /// not be had; the credential then counts as unknown.
    pub fn authorize(self, store: Option<&CredentialStore>, key: &str) -> (r: (
        Upload,
        Option<Notice>,
    ))
        ensures
            follows(self@, Event::Credential { identifier: lookup(store, key@) }, r.0@),
            opt_notice_view(r.1) == notice_of(
                self@,
                Event::Credential { identifier: lookup(store, key@) },
            ),
            well_formed(r.0@),
    {
        proof {
            use_type_invariant(&self);
        }
        match self.state {
            State::AwaitingAuth => match check_key(store, key) {
                Some(identifier) => {
                    let names: Vec<String> = Vec::new();
                    assert(lines_view(names@) == Seq::<Seq<char>>::empty());
                    (
                        Upload { state: State::ProcessingParts { names } },
                        Some(uploading_notice(identifier.as_str())),
                    )
                },
                None => (Upload { state: State::Unauthorized }, None),
            },
            _ => (self, None),
        }
    }

    /// Takes in what the caller reports of the parts. A report that the
    /// request does not wait for changes nothing.
    pub fn step(self, event: PartEvent) -> (r: (Upload, Option<Notice>))
        ensures
            follows(self@, event@, r.0@),
            opt_notice_view(r.1) == notice_of(self@, event@),
            well_formed(r.0@),
    {
        proof {
            use_type_invariant(&self);
        }
        match self.state {
            State::ProcessingParts { names } => match event {
                PartEvent::Part { filename } => {
                    let (name, original) = match filename {
                        Some(f) => (generate_name(Some(f.as_str())), f),
                        None => (generate_name(None), "<none>".to_owned()),
                    };
                    proof {
                        let declared = opt_string_view(filename);
                        label_has_extension_of(declared);
                    }
                    (Upload { state: State::WritingPart { names, name, original } }, None)
                },
                PartEvent::PartUnreadable => (
                    Upload { state: State::ProcessingParts { names } },
                    None,
                ),
                PartEvent::PartsEnded => (Upload { state: State::AllPartsDone { names } }, None),
                PartEvent::Written { .. } => (
                    Upload { state: State::ProcessingParts { names } },
                    None,
                ),
            },
            State::WritingPart { names, name, original } => match event {
                PartEvent::Written { result } => {
                    if result.is_ok() {
                        let notice = uploaded_notice(name.as_str(), original.as_str());
                        let mut names = names;
                        proof {
                            generated_name_has_shape(name@, Some(original@));
                        }
                        let ghost before = lines_view(names@);
                        names.push(name);
                        assert(lines_view(names@) == before.push(name@));
                        (Upload { state: State::ProcessingParts { names } }, Some(notice))
                    } else {
                        let notice = write_failed_notice(name.as_str(), original.as_str());
                        (Upload { state: State::PartFailed }, Some(notice))
                    }
                },
                _ => (Upload { state: State::WritingPart { names, name, original } }, None),
            },
            _ => (self, None),
        }
    }

    /// What the caller is to do next.
    pub fn action(&self) -> (action: UploadAction)
        ensures
            action@ == action_of(self@),
            well_formed(self@),
    {
        proof {
            use_type_invariant(self);
        }
        match &self.state {
            State::AwaitingAuth => UploadAction::CheckCredential,
            State::Unauthorized => UploadAction::Respond { response: UploadResponse::forbidden() },
            State::ProcessingParts { .. } => UploadAction::ReadPart,
            State::WritingPart { name, .. } => UploadAction::WritePart {
                name: name.clone(),
                path: upload_path(name.as_str()),
            },
            State::PartFailed => UploadAction::Respond { response: UploadResponse::failed() },
            State::AllPartsDone { names } => UploadAction::Respond {
                response: UploadResponse::stored(names),
            },
        }
    }
}

} // verus!
