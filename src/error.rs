//! Errors of form construction and encoding.
use vstd::prelude::*;

verus! {

/// What can go wrong while a form is built or handed to the sink.
#[derive(Debug)]
pub enum Error {
    /// A content type could not be parsed; holds the text as given.
    InvalidMime(String),
    /// The host could not create an empty form sink.
    SinkCreationFailed,
    /// The sink refused the field of this name; the rest were not sent.
    AppendFailed { field: String },
}

} // verus!
