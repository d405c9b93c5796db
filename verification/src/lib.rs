//! Hit and time tracking over the splits of a speedrun category: the data
//! model, the chronometer, the run state machine and shortcut dispatch.

use vstd::prelude::*;
use vstd::string::*;

pub mod run;
pub mod settings;
pub mod text;
pub mod ui;

pub use ui::hitsplit::HitSplit;

verus! {

/// The outcome slot of the application: nothing to report, or a message.
#[derive(Clone, Debug, PartialEq, Eq)]
pub enum Error {
    NoError,
    Error(String),
}

/// How looking for a value in storage went.
#[derive(Debug)]
pub enum Stored<T> {
    /// It was read and understood.
    Found(T),
    /// Its file could not be read.
    Missing,
    /// Its file was read, but not understood.
    Malformed,
}

/// How putting a value into storage went.
#[derive(Copy, Clone, Debug, Eq, PartialEq, Structural)]
pub enum Written {
    Done,
    /// The value could not be turned into text.
    NotSerialized,
    /// The text could not be written to the file.
    NotWritten,
}

impl Error {
    /// The message this value carries, if it carries one.
    pub open spec fn message(self) -> Option<Seq<char>> {
        match self {
            Error::NoError => None,
            Error::Error(text) => Some(text@),
        }
    }

    /// An error that shows `hitsplit_error` to the user. `reported_error` is
    /// the underlying cause; it only appears in the log line.
    pub fn new(hitsplit_error: String, reported_error: String) -> (e: Self)
        ensures
            e == Error::Error(hitsplit_error),
    {
        Error::Error(hitsplit_error)
    }

    /// The line that records an error in the log: the message shown to the
    /// user, then the underlying cause.
    pub fn log_line(hitsplit_error: &str, reported_error: &str) -> (line: String)
        ensures
            line@ == hitsplit_error@ + " - "@ + reported_error@,
    {
        let mut line = hitsplit_error.to_string();
        line.append(" - ");
        line.append(reported_error);
        line
    }
}

} // verus!
