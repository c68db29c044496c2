//! The textual form of a settings value: RON, written out in the pretty layout.
//!
//! Encoding and decoding are the work of the `ron` crate and of the value type's own `serde`
//! implementations. What they produce for a given value is not specified here.

use ron::error::Error as EncodeError;
use ron::error::SpannedError;
use vstd::prelude::*;

verus! {

/// `ron::de::from_bytes`: parses a whole RON document into a value of type `T`, or reports why
/// it could not. Nothing is claimed of the outcome.
#[verifier::external_body]
pub(crate) fn decode<T: serde::de::DeserializeOwned>(bytes: &[u8]) -> Result<T, SpannedError> {
    ron::de::from_bytes(bytes)
}

/// `ron::ser::to_writer_pretty` into a fresh buffer, with `ron::ser::PrettyConfig::default()`
/// changed by `PrettyConfig::struct_names` to `struct_names`: the pretty-printed RON document
/// for the value, or the reason why it could not be encoded. Nothing is claimed of the outcome.
#[verifier::external_body]
pub(crate) fn encode<T: serde::Serialize>(value: &T, struct_names: bool) -> Result<
    Vec<u8>,
    EncodeError,
> {
    let config = ron::ser::PrettyConfig::default().struct_names(struct_names);
    let mut document = Vec::new();
    ron::ser::to_writer_pretty(&mut document, value, config).map(|()| document)
}

/// `<ron::error::SpannedError as From<std::io::Error>>::from`: the diagnostic that the parser
/// gives for input that could not be read. Its text comes from the operating system, so nothing
/// is claimed of it.
#[verifier::external_body]
pub(crate) fn read_failure(cause: std::io::Error) -> SpannedError {
    SpannedError::from(cause)
}

/// `<ron::error::Error as From<std::io::Error>>::from`: the diagnostic that the encoder gives
/// for output that could not be written. Its text comes from the operating system, so nothing
/// is claimed of it.
#[verifier::external_body]
pub(crate) fn write_failure(cause: std::io::Error) -> EncodeError {
    EncodeError::from(cause)
}

} // verus!
