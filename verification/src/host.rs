//! What the host reports to the library.
//!
//! The library reads no file and probes no path. The host does both and describes what it found
//! with the types of this module.

use vstd::prelude::*;

verus! {

/// What the host got from a file that it tried to open and read.
#[derive(Debug)]
pub enum Source {
    /// The file could not be opened.
    Unopened(std::io::Error),
    /// The file was opened, but reading it to its end failed.
    Unread(std::io::Error),
    /// The file was opened and read to its end: these are its contents.
    Read(Vec<u8>),
}

/// What the host found at one candidate location.
#[derive(Debug)]
pub enum Probe {
    /// Nothing exists at the path.
    Missing,
    /// Something exists at the path, and this is what the host got from it.
    Present(Source),
}

} // verus!
