//! What each endpoint answers, given what the service returned.
use vstd::prelude::*;
use vstd::string::*;
use crate::error::{CustomError, NOT_FOUND_TEXT};
use crate::model::{Timestamp, UrlModel, UrlResponse};
use crate::request::{UrlRequest, url_parses, LONG_URL_FIELD, INVALID_URL_MESSAGE};
use crate::text::{is_white_space, text_before, text_before_char, trim, trimmed};

verus! {

/// An HTTP answer.
#[derive(Debug, Clone, PartialEq, Eq)]
pub enum Reply<T> {
    /// A status with `body` as JSON.
    Json { status: u16, body: T },
    /// A status with a plain-text body.
    Text { status: u16, body: String },
    /// A status with an empty body.
    Status(u16),
    /// A redirect with status 302 (Found) to the given location.
    Found(String),
}

pub const OK: u16 = 200;
pub const FOUND: u16 = 302;
pub const CREATED: u16 = 201;
pub const BAD_REQUEST: u16 = 400;
pub const NOT_FOUND: u16 = 404;
pub const INTERNAL_SERVER_ERROR: u16 = 500;

/// Body of an error of the system underneath.
pub const SYSTEM_ERROR_TEXT: &'static str = "Lỗi hệ thống";
/// Body of a failed listing.
pub const LIST_ERROR_TEXT: &'static str = "Lỗi khi lấy danh sách URL";
/// Body of a successful update.
pub const UPDATED_TEXT: &'static str = "update url successfully!";
/// Body of a successful deletion.
pub const DELETED_TEXT: &'static str = "delete url successfully!";
/// Lead of the body of a rejected request.
pub const VALIDATION_ERROR_TEXT: &'static str = "Validation error: ";

/// Whether `r` is a text answer with this status and body.
pub open spec fn is_text<T>(r: Reply<T>, status: u16, body: Seq<char>) -> bool {
    &&& r is Text
    &&& r->Text_status == status
    &&& r->Text_body@ == body
}

/// Whether `r` is an empty answer with this status.
pub open spec fn is_status<T>(r: Reply<T>, status: u16) -> bool {
    r is Status && r->Status_0 == status
}

/// The answer to an error: a missing record is a 404 with its message (or
/// the default text), an internal error a 500 with its message, and any
/// failure of the system underneath a 500 with a generic text.
pub open spec fn error_reply_spec<T>(e: CustomError, r: Reply<T>) -> bool {
    match e {
        CustomError::NotFound(Some(m)) => is_text(r, NOT_FOUND, m@),
        CustomError::NotFound(None) => is_text(r, NOT_FOUND, NOT_FOUND_TEXT@),
        CustomError::Internal(m) => is_text(r, INTERNAL_SERVER_ERROR, m@),
        _ => is_text(r, INTERNAL_SERVER_ERROR, SYSTEM_ERROR_TEXT@),
    }
}

/// Turns an error into its answer.
pub fn error_reply<T>(e: CustomError) -> (r: Reply<T>)
    ensures
        error_reply_spec(e, r),
{
    match e {
        CustomError::NotFound(Some(m)) => Reply::Text { status: NOT_FOUND, body: m },
        CustomError::NotFound(None) => Reply::Text {
            status: NOT_FOUND,
            body: String::from_str(NOT_FOUND_TEXT),
        },
        CustomError::Internal(m) => Reply::Text { status: INTERNAL_SERVER_ERROR, body: m },
        _ => Reply::Text {
            status: INTERNAL_SERVER_ERROR,
            body: String::from_str(SYSTEM_ERROR_TEXT),
        },
    }
}

/// The answer to a listing of all links.
pub fn reply_url_list(r: Result<Vec<UrlModel>, CustomError>) -> (reply: Reply<Vec<UrlModel>>)
    ensures
        match r {
            Ok(v) => reply == Reply::<Vec<UrlModel>>::Json { status: OK, body: v },
            Err(_) => is_text(reply, INTERNAL_SERVER_ERROR, LIST_ERROR_TEXT@),
        },
{
    match r {
        Ok(v) => Reply::Json { status: OK, body: v },
        Err(_) => Reply::Text {
            status: INTERNAL_SERVER_ERROR,
            body: String::from_str(LIST_ERROR_TEXT),
        },
    }
}

/// The answer to a visit of a short link, and the id of the link whose
/// visit is to be logged, if any.
#[derive(Debug, Clone, PartialEq, Eq)]
pub struct RedirectOutcome {
    pub reply: Reply<()>,
    pub visited: Option<i32>,
}

/// A found link redirects to its long URL and has its visit logged; a
/// missing one is a 404; any other failure a 500.
pub fn reply_redirect(r: Result<Option<UrlModel>, CustomError>) -> (out: RedirectOutcome)
    ensures
        match r {
            Ok(Some(m)) => out.reply is Found && out.reply->Found_0@
                == m.long_url@ && out.visited == Some(m.id),
            Ok(None) => is_status(out.reply, NOT_FOUND) && out.visited is None,
            Err(CustomError::NotFound(_)) => is_status(out.reply, NOT_FOUND) && out.visited is None,
            Err(_) => is_status(out.reply, INTERNAL_SERVER_ERROR) && out.visited is None,
        },
{
    match r {
        Ok(Some(m)) => RedirectOutcome {
            reply: Reply::Found(m.long_url),
            visited: Some(m.id),
        },
        Ok(None) => RedirectOutcome { reply: Reply::Status(NOT_FOUND), visited: None },
        Err(CustomError::NotFound(_)) => RedirectOutcome {
            reply: Reply::Status(NOT_FOUND),
            visited: None,
        },
        Err(_) => RedirectOutcome { reply: Reply::Status(INTERNAL_SERVER_ERROR), visited: None },
    }
}

/// A found link redirects (302) to its long URL; a missing one is a 404;
/// any other failure a 500.
pub fn reply_view(r: Result<Option<UrlModel>, CustomError>) -> (reply: Reply<()>)
    ensures
        match r {
            Ok(Some(m)) => reply is Found && reply->Found_0@ == m.long_url@,
            Ok(None) => is_status(reply, NOT_FOUND),
            Err(CustomError::NotFound(_)) => is_status(reply, NOT_FOUND),
            Err(_) => is_status(reply, INTERNAL_SERVER_ERROR),
        },
{
    match r {
        Ok(Some(m)) => Reply::Found(m.long_url),
        Ok(None) => Reply::Status(NOT_FOUND),
        Err(CustomError::NotFound(_)) => Reply::Status(NOT_FOUND),
        Err(_) => Reply::Status(INTERNAL_SERVER_ERROR),
    }
}

/// Body of a request whose `long_url` is not a URL: the validation errors
/// as displayed, quoted.
pub open spec fn invalid_url_body() -> Seq<char> {
    VALIDATION_ERROR_TEXT@ + seq!['"'] + LONG_URL_FIELD@ + seq![':', ' '] + INVALID_URL_MESSAGE@
        + seq!['"']
}

/// Checks the body of a request: a `long_url` that is not a URL is a 400.
pub fn check_request<T>(req: &UrlRequest) -> (r: Result<(), Reply<T>>)
    ensures
        url_parses(req.long_url@) ==> r is Ok,
        !url_parses(req.long_url@) ==> r is Err && is_text(r->Err_0, BAD_REQUEST, invalid_url_body()),
{
    match req.validate() {
        Ok(()) => Ok(()),
        Err(e) => {
            proof {
                reveal_strlit("\"");
                reveal_strlit(": ");
            }
            let body = String::from_str(VALIDATION_ERROR_TEXT).concat("\"").concat(
                e.to_text().as_str(),
            ).concat("\"");
            assert(body@ =~= invalid_url_body());
            Err(Reply::Text { status: BAD_REQUEST, body })
        },
    }
}

/// Checks a creation before it reaches the service: without a base URL
/// configured it is a 500; with one, the body must hold a URL. Answers the
/// base URL when both hold.
pub fn check_create(base_url: Option<String>, req: &UrlRequest) -> (r: Result<
    String,
    Reply<UrlResponse>,
>)
    ensures
        match base_url {
            None => r is Err && is_status(r->Err_0, INTERNAL_SERVER_ERROR),
            Some(b) => if url_parses(req.long_url@) {
                r is Ok && r->Ok_0@ == b@
            } else {
                r is Err && is_text(r->Err_0, BAD_REQUEST, invalid_url_body())
            },
        },
{
    match base_url {
        None => Err(Reply::Status(INTERNAL_SERVER_ERROR)),
        Some(b) => match check_request(req) {
            Ok(()) => Ok(b),
            Err(reply) => Err(reply),
        },
    }
}

/// The complete short link: the base URL, a slash, the code.
pub open spec fn short_link(base_url: Seq<char>, code: Seq<char>) -> Seq<char> {
    base_url + seq!['/'] + code
}

/// Builds the complete short link of a code.
pub fn make_short_link(base_url: &str, code: &str) -> (link: String)
    ensures
        link@ == short_link(base_url@, code@),
{
    proof {
        reveal_strlit("/");
    }
    String::from_str(base_url).concat("/").concat(code)
}

/// The answer to a creation: 201 with the new link as JSON, or a 500.
pub fn reply_create(
    base_url: &str,
    long_url: String,
    created_at: Timestamp,
    r: Result<String, CustomError>,
) -> (reply: Reply<UrlResponse>)
    ensures
        match r {
            Ok(code) => reply is Json && reply->Json_status == CREATED && reply->Json_body.short_code@
                == short_link(base_url@, code@) && reply->Json_body.long_url@ == long_url@
                && reply->Json_body.created_at == created_at,
            Err(_) => is_status(reply, INTERNAL_SERVER_ERROR),
        },
{
    match r {
        Ok(code) => Reply::Json {
            status: CREATED,
            body: UrlResponse {
                short_code: make_short_link(base_url, code.as_str()),
                long_url,
                created_at,
            },
        },
        Err(_) => Reply::Status(INTERNAL_SERVER_ERROR),
    }
}

/// The answer to a change of an existing link: `done_status` with
/// `done_text` on success, the error's own answer when the link is
/// missing, a 500 otherwise.
fn reply_change(r: Result<bool, CustomError>, done_status: u16, done_text: &str) -> (reply: Reply<
    (),
>)
    ensures
        match r {
            Ok(_) => is_text(reply, done_status, done_text@),
            Err(CustomError::NotFound(m)) => error_reply_spec(CustomError::NotFound(m), reply),
            Err(_) => is_status(reply, INTERNAL_SERVER_ERROR),
        },
{
    match r {
        Ok(_) => Reply::Text { status: done_status, body: String::from_str(done_text) },
        Err(CustomError::NotFound(m)) => error_reply(CustomError::NotFound(m)),
        Err(_) => Reply::Status(INTERNAL_SERVER_ERROR),
    }
}

/// The answer to an update: 201 on success, the error's answer (404) for a
/// missing link, a 500 otherwise.
pub fn reply_update(r: Result<bool, CustomError>) -> (reply: Reply<()>)
    ensures
        match r {
            Ok(_) => is_text(reply, CREATED, UPDATED_TEXT@),
            Err(CustomError::NotFound(m)) => error_reply_spec(CustomError::NotFound(m), reply),
            Err(_) => is_status(reply, INTERNAL_SERVER_ERROR),
        },
{
    reply_change(r, CREATED, UPDATED_TEXT)
}

/// The answer to a deletion: 200 on success, the error's answer (404) for
/// a missing link, a 500 otherwise.
pub fn reply_delete(r: Result<bool, CustomError>) -> (reply: Reply<()>)
    ensures
        match r {
            Ok(_) => is_text(reply, OK, DELETED_TEXT@),
            Err(CustomError::NotFound(m)) => error_reply_spec(CustomError::NotFound(m), reply),
            Err(_) => is_status(reply, INTERNAL_SERVER_ERROR),
        },
{
    reply_change(r, OK, DELETED_TEXT)
}

/// The address a visit is logged under: the first entry of the
/// `X-Forwarded-For` header, trimmed, when the header is there (and
/// readable); the peer's address otherwise.
pub open spec fn visitor_ip_of(forwarded: Option<Seq<char>>, peer_ip: Seq<char>) -> Seq<char> {
    match forwarded {
        Some(h) => trimmed(text_before(h, ',')),
        None => peer_ip,
    }
}

/// Picks the address a visit is logged under.
pub fn visitor_ip(forwarded: Option<String>, peer_ip: String) -> (ip: String)
    ensures
        ip@ == visitor_ip_of(
            match forwarded {
                Some(h) => Some(h@),
                None => None,
            },
            peer_ip@,
        ),
        forwarded matches Some(h) ==> ip@ == trimmed(text_before(h@, ',')),
        forwarded is None ==> ip@ == peer_ip@,
{
    match forwarded {
        Some(h) => {
            let first = text_before_char(h.as_str(), ',');
            trim(first.as_str())
        },
        None => peer_ip,
    }
}

/// A visit behind a proxy is logged under an address that holds no comma
/// and neither starts nor ends with white space, taken from the header's
/// first entry.
pub proof fn lemma_forwarded_visitor_ip(h: Seq<char>, peer_ip: Seq<char>)
    ensures
        !visitor_ip_of(Some(h), peer_ip).contains(','),
        trimmed(visitor_ip_of(Some(h), peer_ip)) == visitor_ip_of(Some(h), peer_ip),
{
    let first = text_before(h, ',');
    crate::text::lemma_text_before_shape(h, ',');
    crate::text::lemma_trimmed_shape(first);
    crate::text::lemma_trimmed_idempotent(first);
    let ip = trimmed(first);
    let (i, j) = choose|i: int, j: int| 0 <= i <= j <= first.len() && ip == first.subrange(i, j);
    assert forall|k: int| 0 <= k < ip.len() implies ip[k] != ',' by {
        assert(ip[k] == first[i + k]);
    }
}

/// Behind a proxy, a visit is logged under exactly the first entry of the
/// forwarding header without the white space around it: with `k` the
/// position of the first comma (or the end of the header), the address is
/// `h[i..j]` inside `h[..k]`, with only white space in `h[..i]` and
/// `h[j..k]`, and starting and ending with a character that is not white
/// space unless it is empty. Without the header, the peer's address is
/// used unchanged.
pub proof fn lemma_visitor_ip_exact(h: Seq<char>, peer_ip: Seq<char>) -> (r: (int, int, int))
    ensures
        visitor_ip_of(None, peer_ip) == peer_ip,
        0 <= r.1 <= r.2 <= r.0 <= h.len(),
        r.0 == h.len() || h[r.0] == ',',
        forall|m: int| 0 <= m < r.0 ==> #[trigger] h[m] != ',',
        visitor_ip_of(Some(h), peer_ip) == h.subrange(r.1, r.2),
        forall|m: int| 0 <= m < r.1 ==> is_white_space(#[trigger] h[m]),
        forall|m: int| r.2 <= m < r.0 ==> is_white_space(#[trigger] h[m]),
        r.1 < r.2 ==> !is_white_space(h[r.1]) && !is_white_space(h[r.2 - 1]),
{
    let k = crate::text::lemma_text_before_exact(h, ',');
    let first = text_before(h, ',');
    let (i, j) = crate::text::lemma_trimmed_exact(first);
    assert(visitor_ip_of(Some(h), peer_ip) =~= h.subrange(i, j));
    assert forall|m: int| 0 <= m < i implies is_white_space(#[trigger] h[m]) by {
        assert(h[m] == first[m]);
    }
    assert forall|m: int| j <= m < k implies is_white_space(#[trigger] h[m]) by {
        assert(h[m] == first[m]);
    }
    if i < j {
        assert(h[i] == first[i]);
        assert(h[j - 1] == first[j - 1]);
    }
    (k, i, j)
}

} // verus!
