use vstd::prelude::*;
use vstd::string::StringExecFns;

use crate::record::StoreError;
use crate::validation::ValidationError;

verus! {

pub const STATUS_FOUND: u16 = 302;

pub const STATUS_BAD_REQUEST: u16 = 400;

pub const STATUS_NOT_FOUND: u16 = 404;

pub const STATUS_INTERNAL_ERROR: u16 = 500;

/// The reason given to a client for a refused long URL.
pub open spec fn reason_text(e: ValidationError) -> Seq<char> {
    match e {
        ValidationError::Empty => "URL must not be empty"@,
        ValidationError::InvalidFormat => "URL must be a valid http or https URL"@,
    }
}

/// The reply to a refused long URL: status 400 with a JSON body
/// `{"error": "Invalid URL", "reason": ...}`.
#[derive(Debug, Clone)]
pub struct Rejection {
    pub status: u16,
    pub error: String,
    pub reason: String,
}

/// The reply to a long URL that validation refused.
pub fn rejection(e: ValidationError) -> (r: Rejection)
    ensures
        r.status == STATUS_BAD_REQUEST,
        r.error@ == "Invalid URL"@,
        r.reason@ == reason_text(e),
{
    let reason = match e {
        ValidationError::Empty => String::from_str("URL must not be empty"),
        ValidationError::InvalidFormat => String::from_str("URL must be a valid http or https URL"),
    };
    Rejection { status: STATUS_BAD_REQUEST, error: String::from_str("Invalid URL"), reason }
}

/// The reply to a short code: a redirect to the long URL, not found, or a
/// server error.
#[derive(Debug, Clone)]
pub struct RedirectReply {
    pub status: u16,
    /// The `Location` header, on a redirect.
    pub location: Option<String>,
}

/// The reply to a short code from the answer of its lookup.
pub fn redirect_reply(answer: Result<Option<String>, StoreError>) -> (r: RedirectReply)
    ensures
        match answer {
            Ok(Some(u)) => r.status == STATUS_FOUND && r.location == Some(u),
            Ok(None) => r.status == STATUS_NOT_FOUND && r.location is None,
            Err(_) => r.status == STATUS_INTERNAL_ERROR && r.location is None,
        },
{
    match answer {
        Ok(Some(u)) => RedirectReply { status: STATUS_FOUND, location: Some(u) },
        Ok(None) => RedirectReply { status: STATUS_NOT_FOUND, location: None },
        Err(_) => RedirectReply { status: STATUS_INTERNAL_ERROR, location: None },
    }
}

} // verus!
