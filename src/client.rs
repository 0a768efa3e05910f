use vstd::prelude::*;

verus! {

/// The HTTP client could not be created or could not complete a request.
#[derive(Debug, Clone, PartialEq, Eq)]
pub enum Error {
    ClientError(String),
}

} // verus!
