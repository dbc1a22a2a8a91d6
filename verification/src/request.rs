//! The body of a create or update request, and its validation.
use vstd::prelude::*;
use vstd::string::*;

verus! {

/// Whether `url::Url::parse` accepts `s`. What the parser accepts takes
/// the WHATWG URL standard to state; it depends on `s` alone.
pub uninterp spec fn url_parses(s: Seq<char>) -> bool;

/// Calls `validator::ValidateUrl::validate_url` on a string. Its source
/// returns whether `url::Url::parse` succeeds on the string; the contract
/// ties the answer to the string through `url_parses`.
#[verifier::external_body]
fn validate_url(s: &str) -> (ok: bool)
    ensures
        ok == url_parses(s@),
{
    validator::ValidateUrl::validate_url(s)
}

/// Name of the only validated field.
pub const LONG_URL_FIELD: &'static str = "long_url";

/// Message given when `long_url` is not a URL.
pub const INVALID_URL_MESSAGE: &'static str = "Định dạng URL không hợp lệ";

/// A rejected field, with the message that explains why.
#[derive(Debug, Clone, PartialEq, Eq)]
pub struct FieldError {
    pub field: String,
    pub message: String,
}

/// The rejection of a `long_url` that does not parse as a URL.
pub open spec fn is_invalid_url_error(e: FieldError) -> bool {
    &&& e.field@ == LONG_URL_FIELD@
    &&& e.message@ == INVALID_URL_MESSAGE@
}

/// Body of a create or update request.
#[derive(Debug, Clone, PartialEq, Eq)]
pub struct UrlRequest {
    pub long_url: String,
}

/// What validation answers, given whether the URL parses.
pub fn url_check_outcome(parses: bool) -> (r: Result<(), FieldError>)
    ensures
        parses ==> r is Ok,
        !parses ==> r is Err && is_invalid_url_error(r->Err_0),
{
    if parses {
        Ok(())
    } else {
        Err(
            FieldError {
                field: String::from_str(LONG_URL_FIELD),
                message: String::from_str(INVALID_URL_MESSAGE),
            },
        )
    }
}

impl UrlRequest {
    /// Accepts the request exactly when `long_url` parses as a URL.
    pub fn validate(&self) -> (r: Result<(), FieldError>)
        ensures
            url_parses(self.long_url@) ==> r is Ok,
            !url_parses(self.long_url@) ==> r is Err && is_invalid_url_error(r->Err_0),
    {
        url_check_outcome(validate_url(self.long_url.as_str()))
    }
}

/// `"{field}: {message}"`, the way validation errors are displayed.
pub open spec fn field_error_text(e: FieldError) -> Seq<char> {
    e.field@ + ": "@ + e.message@
}

impl FieldError {
    /// The displayed form of the error.
    pub fn to_text(&self) -> (t: String)
        ensures
            t@ == field_error_text(*self),
    {
        String::from_str(self.field.as_str()).concat(": ").concat(self.message.as_str())
    }
}

} // verus!
