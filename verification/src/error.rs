//! The ways in which loading or saving settings can fail.

use crate::codec::{read_failure, write_failure};
use ron::error::Error as EncodeError;
use std::path::PathBuf;
use vstd::prelude::*;

verus! {

/// Every failure of this library. Each one ends the call that met it; nothing is retried.
#[derive(Debug)]
pub enum Error {
    /// The settings file could not be opened or created.
    Open {
        /// What the operating system reported.
        source: std::io::Error,
        /// The path that was tried.
        path: PathBuf,
    },
    /// The contents of the settings file did not parse into the target type.
    Deserialize(ron::error::SpannedError),
    /// The value could not be encoded.
    Serialize(EncodeError),
    /// None of the candidate locations holds a settings file.
    NotFound,
}

impl Error {
    /// The one-line description of each kind of failure. Callers may match on these texts, so
    /// they stay as they have always been, letter for letter.
    pub open spec fn description(self) -> Seq<char> {
        match self {
            Error::Open { .. } => "Could not open settings file"@,
            Error::Deserialize(_) => "Could not deserialize settings file"@,
            Error::Serialize(_) => "Could not serialize settings file"@,
            Error::NotFound => "Cound not find a settings file"@,
        }
    }

    /// The failure of a load whose file was opened but could not be read to its end: the
    /// parser's diagnostic for unreadable input.
    pub fn unread(cause: std::io::Error) -> (r: Error)
        ensures
            r is Deserialize,
    {
        Error::Deserialize(read_failure(cause))
    }

    /// The failure of a save whose file was created but could not be written: the encoder's
    /// diagnostic for output that does not go through.
    pub fn unwritten(cause: std::io::Error) -> (r: Error)
        ensures
            r is Serialize,
    {
        Error::Serialize(write_failure(cause))
    }

    /// A one-line description of the failure, without its cause.
    pub fn message(&self) -> (r: &'static str)
        ensures
            r@ == self.description(),
    {
        match self {
            Error::Open { .. } => "Could not open settings file",
            Error::Deserialize(_) => "Could not deserialize settings file",
            Error::Serialize(_) => "Could not serialize settings file",
            Error::NotFound => "Cound not find a settings file",
        }
    }
}

} // verus!
