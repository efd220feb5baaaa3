//! Core engine of a terminal plaintext editor: a multi-line text buffer
//! with a cursor and a scrolling viewport, an event-to-mutation dispatcher,
//! and the pure parts of saving and loading documents.

pub mod dispatch;
pub mod events;
pub mod persist;
pub mod prompt;
pub mod textbuf;
pub mod viewport;

use vstd::prelude::*;

verus! {

/// Number of spaces a horizontal tab expands to.
pub const TABLENGTH: usize = 4;

/// Errors of the save and load paths.
///
/// `FileNotFound` covers both "no filename associated yet" (saving) and
/// "path does not exist" (loading); `IoFailure` covers every other I/O
/// failure; `UserCancelled` is an escape during filename entry.
#[derive(Clone, Copy, Debug, PartialEq, Eq, Structural)]
pub enum EditorError {
    FileNotFound,
    IoFailure,
    UserCancelled,
}

/// Command-line options: an optional file to open, a highlighting toggle
/// and a highlighting theme name.
pub struct Args {
    pub file: Option<String>,
    pub syntax: bool,
    pub theme: String,
}

impl Args {
    /// The options when none are given on the command line: no file,
    /// highlighting off, the default theme.
    pub fn new() -> (args: Args)
        ensures
            args.file is None,
            !args.syntax,
            args.theme@ == "base16-eighties.dark"@,
    {
        Args { file: None, syntax: false, theme: "base16-eighties.dark".to_owned() }
    }
}

} // verus!
