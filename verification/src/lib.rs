//! Persistence of application settings, with the file system kept at arm's length.
//!
//! A settings file holds one value of the caller's type in RON. This library decides where the
//! file lives, turns its contents into the value, and turns the value back into a document. It
//! reads no environment variable and touches no file: the host does that and reports what it
//! found, so that every decision of the library is a function of what it was told.
//!
//! Loading from the standard locations takes three steps.
//!
//! 1. The host reads the environment variable named by [`resolver::config_path_var`] and the
//!    current directory, and asks [`resolver::candidates`] for the candidate locations in order
//!    of priority.
//! 2. The host probes the candidates in that order and opens the first file that exists. It
//!    reports each candidate as a [`host::Probe`].
//! 3. [`Settings::load`] picks the first candidate at which something exists and parses it.
//!
//! Saving takes two: the host creates the file at [`Settings::path`] and hands the outcome to
//! [`Settings::save`], which returns the document to write.

pub mod codec;
pub mod error;
pub mod host;
pub mod outside;
pub mod resolver;
pub mod settings;

pub use error::Error;
pub use settings::Settings;
