//! The library's errors.

use vstd::prelude::*;

verus! {

/// The transport error of the HTTP client, carried through unread.
#[verifier::external_type_specification]
#[verifier::external_body]
pub struct ExTransportError(reqwest::Error);

/// What can go wrong in a search or at startup.
pub enum ImageBotError {
    /// The provider answered, but not with a string where the image URL
    /// should be; the text says what stood there instead.
    Api(String),
    /// The request could not be sent or its answer not read.
    NetworkIo(reqwest::Error),
    /// The configuration asks for the search engine but names no engine id.
    MissingCxId,
}

} // verus!
