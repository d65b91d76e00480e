//! The data carried by the Telegraph API methods and the reading of an API
//! response's outcome flag. The HTTP calls themselves happen outside the
//! library.

use vstd::prelude::*;

verus! {

/// The account fields an edit may change.
#[derive(Debug)]
pub enum FieldToChange {
    ShortName,
    AuthorName,
    AuthorUrl,
}

/// The error text of a response the API itself rejected.
#[derive(Debug)]
pub struct ErrorResult {
    pub error: String,
}

impl ErrorResult {
    pub fn new(error: String) -> (r: Self)
        ensures
            r.error == error,
    {
        ErrorResult { error }
    }
}

/// A Telegraph account as the API reports it.
#[derive(Debug)]
pub struct Account {
    pub short_name: String,
    pub author_name: Option<String>,
    pub author_url: Option<String>,
    pub access_token: Option<String>,
    pub auth_url: Option<String>,
}

/// Fresh credentials after a token is revoked.
#[derive(Debug)]
pub struct Access {
    pub access_token: String,
    pub auth_url: String,
}

/// Every way a Telegraph method can fail: the request itself, decoding
/// the body as JSON, reading the decoded structure, or a well-formed
/// response that reports an error.
#[derive(Debug)]
pub enum Error {
    RequestInternalError,
    JsonParseError,
    StructParseError,
    BadResponse(ErrorResult),
}

/// Reads a response's outcome from its `ok` member, which the caller has
/// extracted as the member's boolean value if the response carries one. A
/// response without a boolean `ok` member is malformed.
pub fn is_ok(ok_member: Option<bool>) -> (r: Result<bool, Error>)
    ensures
        (ok_member matches Some(b) ==> (r matches Ok(v) && v == b)),
        (ok_member is None ==> (r matches Err(e) && e is StructParseError)),
{
    match ok_member {
        Some(b) => Ok(b),
        None => Err(Error::StructParseError),
    }
}

} // verus!
