use url_shortener::error::{CustomError, DatabaseFailure};
use url_shortener::flow::{rows_changed, ChangeExistingUrl, CreateShortUrl, DbRequest, UrlChange};

#[test]
fn create_inserts_first_free_code() {
    let (mut flow, req) = CreateShortUrl::begin("https://a.example".to_string(), "code000001".to_string());
    assert_eq!(req, DbRequest::FindByCode("code000001".to_string()));
    assert_eq!(flow.on_lookup(true), None);
    let req = flow.retry("code000002".to_string());
    assert_eq!(req, DbRequest::FindByCode("code000002".to_string()));
    let req = flow.on_lookup(false);
    assert_eq!(
        req,
        Some(DbRequest::Insert {
            short_code: "code000002".to_string(),
            long_url: "https://a.example".to_string()
        })
    );
    assert_eq!(flow.on_inserted(), "code000002");
}

#[test]
fn create_with_free_first_code() {
    let (mut flow, _) = CreateShortUrl::begin("u".to_string(), "c".to_string());
    assert_eq!(
        flow.on_lookup(false),
        Some(DbRequest::Insert { short_code: "c".to_string(), long_url: "u".to_string() })
    );
    assert_eq!(flow.on_inserted(), "c");
}

#[test]
fn update_existing_link() {
    let (mut flow, req) = ChangeExistingUrl::begin(
        "abc".to_string(),
        UrlChange::UpdateLongUrl("https://new.example".to_string()),
    );
    assert_eq!(req, DbRequest::FindByCode("abc".to_string()));
    assert_eq!(
        flow.on_lookup(true),
        Ok(DbRequest::UpdateLongUrl {
            short_code: "abc".to_string(),
            long_url: "https://new.example".to_string()
        })
    );
    assert!(flow.on_applied());
}

#[test]
fn update_missing_link_is_not_found() {
    let (mut flow, _) = ChangeExistingUrl::begin("zzz".to_string(), UrlChange::UpdateLongUrl("x".to_string()));
    assert_eq!(
        flow.on_lookup(false),
        Err(CustomError::NotFound(Some("Url not found".to_string())))
    );
}

#[test]
fn delete_existing_and_missing_link() {
    let (mut flow, _) = ChangeExistingUrl::begin("abc".to_string(), UrlChange::Delete);
    assert_eq!(flow.on_lookup(true), Ok(DbRequest::Delete("abc".to_string())));
    assert!(flow.on_applied());
    let (mut flow, _) = ChangeExistingUrl::begin("abc".to_string(), UrlChange::Delete);
    assert_eq!(
        flow.on_lookup(false),
        Err(CustomError::NotFound(Some("Url not found".to_string())))
    );
}

#[test]
fn rows_changed_when_any_affected() {
    assert!(!rows_changed(0));
    assert!(rows_changed(1));
    assert!(rows_changed(u64::MAX));
}

#[test]
fn database_failures_become_errors() {
    assert_eq!(CustomError::from_database(DatabaseFailure::RowNotFound), CustomError::NotFound(None));
    assert_eq!(
        CustomError::from_database(DatabaseFailure::Other("boom".to_string())),
        CustomError::DatabaseError("boom".to_string())
    );
}

#[test]
fn error_texts() {
    assert_eq!(CustomError::NotFound(Some("x".to_string())).to_text(), "Không tìm thấy dữ liệu");
    assert_eq!(CustomError::DatabaseError("e".to_string()).to_text(), "Lỗi cơ sở dữ liệu: e");
    assert_eq!(CustomError::RedisPoolError("e".to_string()).to_text(), "Lỗi kết nối Redis Pool: e");
    assert_eq!(CustomError::RedisError("e".to_string()).to_text(), "Lỗi thực thi Redis: e");
    assert_eq!(CustomError::SerializationError("e".to_string()).to_text(), "Lỗi định dạng dữ liệu: e");
    assert_eq!(CustomError::Internal("e".to_string()).to_text(), "Lỗi nội bộ: e");
}

#[test]
fn system_failures() {
    assert!(!CustomError::NotFound(None).is_system_failure());
    assert!(!CustomError::Internal("x".to_string()).is_system_failure());
    assert!(CustomError::DatabaseError("x".to_string()).is_system_failure());
    assert!(CustomError::RedisError("x".to_string()).is_system_failure());
}

#[test]
fn create_keeps_stored_codes_unique() {
    let mut table: Vec<String> = vec!["aaaaaaaaaa".to_string(), "bbbbbbbbbb".to_string()];
    let candidates = ["bbbbbbbbbb", "aaaaaaaaaa", "cccccccccc"];
    let (mut flow, mut request) = CreateShortUrl::begin("https://x.example".to_string(), candidates[0].to_string());
    let mut next = 1;
    let created = loop {
        match request {
            DbRequest::FindByCode(code) => {
                let found = table.contains(&code);
                request = match flow.on_lookup(found) {
                    Some(insert) => insert,
                    None => {
                        let r = flow.retry(candidates[next].to_string());
                        next += 1;
                        r
                    }
                };
            }
            DbRequest::Insert { short_code, .. } => {
                table.push(short_code);
                break flow.on_inserted();
            }
            other => panic!("unexpected {:?}", other),
        }
    };
    assert_eq!(created, "cccccccccc");
    assert_eq!(table.iter().filter(|c| **c == created).count(), 1);
    let mut sorted = table.clone();
    sorted.sort();
    sorted.dedup();
    assert_eq!(sorted.len(), table.len());
}
