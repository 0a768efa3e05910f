use vstd::prelude::*;

verus! {

/// The failures that resolving, sending or rendering a request can produce.
#[derive(Debug, Clone, PartialEq, Eq)]
pub enum Error {
    /// The response body is not structured data; recovered by passing the text through.
    BodyParsingError(String),
    ConfigError(String),
    ClientError(String),
    TemplateError(String),
    InvalidArguments(String),
    IOError(String),
    InvalidMethod,
    InvalidURL,
    InvalidBody,
}

} // verus!
