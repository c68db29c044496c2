//! The types of `std` and of `ron` that pass through this library.
//!
//! The library hands these values on and never looks inside them, so each is declared opaque.

use ron::error::Error as EncodeError;
use std::path::PathBuf;
use vstd::prelude::*;

verus! {

/// `std::path::PathBuf`, carried through as an opaque value.
#[verifier::external_type_specification]
#[verifier::external_body]
pub struct ExPathBuf(std::path::PathBuf);

/// `std::path::Path`, which a `PathBuf` dereferences to. No function of the library takes one;
/// it is declared because `PathBuf` cannot be used without it.
#[verifier::external_type_specification]
#[verifier::external_body]
pub struct ExPath(std::path::Path);

/// `std::io::Error`, carried through as an opaque value.
#[verifier::external_type_specification]
#[verifier::external_body]
pub struct ExIoError(std::io::Error);

/// `ron::error::SpannedError`, the parser's diagnostic with its position, carried through as an
/// opaque value.
#[verifier::external_type_specification]
#[verifier::external_body]
pub struct ExSpannedError(ron::error::SpannedError);

/// `ron::error::Error`, the encoder's diagnostic, carried through as an opaque value.
#[verifier::external_type_specification]
#[verifier::external_body]
pub struct ExRonError(EncodeError);

/// `<PathBuf as Clone>::clone`: the clone is the same path.
pub assume_specification[ <PathBuf as Clone>::clone ](path: &PathBuf) -> (r: PathBuf)
    ensures
        r == *path,
;

} // verus!
