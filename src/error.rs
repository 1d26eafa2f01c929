//! The error kinds of the library.
use vstd::prelude::*;

verus! {

#[verifier::external_type_specification]
#[verifier::external_body]
pub struct ExParseError(url::ParseError);

/// Everything that can go wrong while composing a request or mapping its
/// response.
#[derive(Debug)]
pub enum Error {
    /// A base URL or a joined URL did not parse.
    UrlParse(url::ParseError),
    /// A request needed a credential and none was configured.
    Unauthorized(String),
    /// The server answered with a status outside the success range; the text
    /// holds the operation label, the status and the response body.
    GiteaError(String),
    /// The connection failed or the body could not be read.
    Transport(String),
    /// The body did not have the expected JSON shape.
    Decode(String),
    /// Anything else, such as invalid input supplied by a caller.
    Other(String),
}

pub type Result<T> = core::result::Result<T, Error>;

} // verus!
