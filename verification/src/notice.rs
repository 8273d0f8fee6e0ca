//! Lines for the service's log. The library only words them; writing them
//! out is left to the caller.

use vstd::prelude::*;
use vstd::string::StringExecFns;

verus! {

/// How much a line matters.
#[derive(Debug, Clone, Copy, PartialEq, Eq, Structural)]
pub enum Level {
    Info,
    Warn,
}

/// One line for the log.
#[derive(Debug)]
pub struct Notice {
    pub level: Level,
    pub message: String,
}

impl View for Notice {
    type V = (Level, Seq<char>);

    open spec fn view(&self) -> (Level, Seq<char>) {
        (self.level, self.message@)
    }
}

/// The view of a line that may be missing.
pub open spec fn opt_notice_view(notice: Option<Notice>) -> Option<(Level, Seq<char>)> {
    match notice {
        Some(n) => Some(n@),
        None => None,
    }
}

/// The line that says whose upload begins.
pub open spec fn uploading_line(identifier: Seq<char>) -> (Level, Seq<char>) {
    (Level::Info, identifier + " is uploading some files:"@)
}

/// The line that says under which name a part was stored.
pub open spec fn uploaded_line(name: Seq<char>, original: Seq<char>) -> (Level, Seq<char>) {
    (Level::Info, "Uploaded "@ + name + " (orig: "@ + original + ")"@)
}

/// The line that says which part could not be stored.
pub open spec fn write_failed_line(name: Seq<char>, original: Seq<char>) -> (Level, Seq<char>) {
    (
        Level::Warn,
        "An error occurred while attempting to write "@ + name + " (orig: "@ + original + ")"@,
    )
}

/// Words the line that says whose upload begins.
pub fn uploading_notice(identifier: &str) -> (notice: Notice)
    ensures
        notice@ == uploading_line(identifier@),
{
    let mut message = identifier.to_owned();
    message.append(" is uploading some files:");
    Notice { level: Level::Info, message }
}

/// Words the line that says under which name a part was stored.
pub fn uploaded_notice(name: &str, original: &str) -> (notice: Notice)
    ensures
        notice@ == uploaded_line(name@, original@),
{
    let mut message = "Uploaded ".to_owned();
    message.append(name);
    message.append(" (orig: ");
    message.append(original);
    message.append(")");
    Notice { level: Level::Info, message }
}

/// Words the line that says which part could not be stored.
pub fn write_failed_notice(name: &str, original: &str) -> (notice: Notice)
    ensures
        notice@ == write_failed_line(name@, original@),
{
    let mut message = "An error occurred while attempting to write ".to_owned();
    message.append(name);
    message.append(" (orig: ");
    message.append(original);
    message.append(")");
    Notice { level: Level::Warn, message }
}

} // verus!
