use url_shortener::error::CustomError;
use url_shortener::model::{Timestamp, UrlModel, UrlResponse};
use url_shortener::reply::{
    check_create, check_request, error_reply, make_short_link, reply_create, reply_delete,
    reply_redirect, reply_update, reply_url_list, reply_view, visitor_ip, Reply,
};
use url_shortener::request::{url_check_outcome, FieldError, UrlRequest};

fn model() -> UrlModel {
    UrlModel {
        id: 42,
        long_url: "https://example.com/a".to_string(),
        short_code: "abcdefghij".to_string(),
        created_at: Timestamp { secs: 1_700_000_000, nanos: 123_456_789 },
    }
}

fn text(status: u16, body: &str) -> Reply<()> {
    Reply::Text { status, body: body.to_string() }
}

#[test]
fn errors_become_replies() {
    let r: Reply<()> = error_reply(CustomError::NotFound(Some("Url not found".to_string())));
    assert_eq!(r, text(404, "Url not found"));
    let r: Reply<()> = error_reply(CustomError::NotFound(None));
    assert_eq!(r, text(404, "Không tìm thấy dữ liệu"));
    let r: Reply<()> = error_reply(CustomError::Internal("bad".to_string()));
    assert_eq!(r, text(500, "bad"));
    let r: Reply<()> = error_reply(CustomError::DatabaseError("db".to_string()));
    assert_eq!(r, text(500, "Lỗi hệ thống"));
    let r: Reply<()> = error_reply(CustomError::SerializationError("s".to_string()));
    assert_eq!(r, text(500, "Lỗi hệ thống"));
}

#[test]
fn listing_replies() {
    assert_eq!(reply_url_list(Ok(vec![model()])), Reply::Json { status: 200, body: vec![model()] });
    assert_eq!(
        reply_url_list(Err(CustomError::DatabaseError("x".to_string()))),
        Reply::Text { status: 500, body: "Lỗi khi lấy danh sách URL".to_string() }
    );
}

#[test]
fn redirect_replies() {
    let out = reply_redirect(Ok(Some(model())));
    assert_eq!(out.reply, Reply::Found("https://example.com/a".to_string()));
    assert_eq!(out.visited, Some(42));
    let out = reply_redirect(Ok(None));
    assert_eq!(out.reply, Reply::Status(404));
    assert_eq!(out.visited, None);
    let out = reply_redirect(Err(CustomError::NotFound(None)));
    assert_eq!(out.reply, Reply::Status(404));
    let out = reply_redirect(Err(CustomError::DatabaseError("x".to_string())));
    assert_eq!(out.reply, Reply::Status(500));
    assert_eq!(out.visited, None);
}

#[test]
fn view_replies() {
    assert_eq!(reply_view(Ok(Some(model()))), Reply::Found("https://example.com/a".to_string()));
    assert_eq!(reply_view(Ok(None)), Reply::Status(404));
    assert_eq!(reply_view(Err(CustomError::NotFound(Some("m".to_string())))), Reply::Status(404));
    assert_eq!(reply_view(Err(CustomError::Internal("m".to_string()))), Reply::Status(500));
}

#[test]
fn request_validation() {
    let ok = UrlRequest { long_url: "https://example.com/path?q=1".to_string() };
    assert_eq!(ok.validate(), Ok(()));
    let bad = UrlRequest { long_url: "not a url".to_string() };
    let err = bad.validate().unwrap_err();
    assert_eq!(
        err,
        FieldError { field: "long_url".to_string(), message: "Định dạng URL không hợp lệ".to_string() }
    );
    assert_eq!(err.to_text(), "long_url: Định dạng URL không hợp lệ");
    assert_eq!(url_check_outcome(true), Ok(()));
    assert!(url_check_outcome(false).is_err());
}

#[test]
fn invalid_request_is_bad_request() {
    let bad = UrlRequest { long_url: "example.com".to_string() };
    let r: Result<(), Reply<()>> = check_request(&bad);
    assert_eq!(
        r,
        Err(text(400, "Validation error: \"long_url: Định dạng URL không hợp lệ\""))
    );
    let expected = format!("Validation error: {:?}", "long_url: Định dạng URL không hợp lệ".to_string());
    assert_eq!(r, Err(Reply::Text { status: 400, body: expected }));
    let good = UrlRequest { long_url: "http://example.com".to_string() };
    assert_eq!(check_request::<()>(&good), Ok(()));
}

#[test]
fn create_checks() {
    let good = UrlRequest { long_url: "http://example.com".to_string() };
    assert_eq!(check_create(None, &good), Err(Reply::Status(500)));
    assert_eq!(check_create(Some("http://s.io".to_string()), &good), Ok("http://s.io".to_string()));
    let bad = UrlRequest { long_url: "::".to_string() };
    assert!(matches!(
        check_create(Some("http://s.io".to_string()), &bad),
        Err(Reply::Text { status: 400, .. })
    ));
    assert!(matches!(check_create(None, &bad), Err(Reply::Status(500))));
}

#[test]
fn create_replies() {
    assert_eq!(make_short_link("http://s.io", "abc"), "http://s.io/abc");
    let at = Timestamp { secs: -14_831_769_600, nanos: 5 };
    let r = reply_create("http://s.io", "https://example.com".to_string(), at, Ok("abcdefghij".to_string()));
    assert_eq!(
        r,
        Reply::Json {
            status: 201,
            body: UrlResponse {
                short_code: "http://s.io/abcdefghij".to_string(),
                long_url: "https://example.com".to_string(),
                created_at: at
            }
        }
    );
    let r = reply_create("http://s.io", "x".to_string(), at, Err(CustomError::Internal("i".to_string())));
    assert_eq!(r, Reply::Status(500));
}

#[test]
fn update_and_delete_replies() {
    assert_eq!(reply_update(Ok(true)), text(201, "update url successfully!"));
    assert_eq!(
        reply_update(Err(CustomError::NotFound(Some("Url not found".to_string())))),
        text(404, "Url not found")
    );
    assert_eq!(reply_update(Err(CustomError::NotFound(None))), text(404, "Không tìm thấy dữ liệu"));
    assert_eq!(reply_update(Err(CustomError::DatabaseError("x".to_string()))), Reply::Status(500));
    assert_eq!(reply_delete(Ok(true)), text(200, "delete url successfully!"));
    assert_eq!(
        reply_delete(Err(CustomError::NotFound(Some("Url not found".to_string())))),
        text(404, "Url not found")
    );
    assert_eq!(reply_delete(Err(CustomError::Internal("x".to_string()))), Reply::Status(500));
}

#[test]
fn visitor_ip_prefers_forwarded_header() {
    let peer = "127.0.0.1".to_string();
    assert_eq!(visitor_ip(Some(" 10.0.0.1 , 10.0.0.2".to_string()), peer.clone()), "10.0.0.1");
    assert_eq!(visitor_ip(Some("10.0.0.9".to_string()), peer.clone()), "10.0.0.9");
    assert_eq!(visitor_ip(Some(String::new()), peer.clone()), "");
    assert_eq!(visitor_ip(None, peer.clone()), "127.0.0.1");
    let ip = visitor_ip(Some("a , b".to_string()), peer);
    assert!(!ip.contains(','));
    assert_eq!(ip, ip.trim());
}
