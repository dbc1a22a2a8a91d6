use url_shortener::model::{PaginatedResponse, UrlClickCount};
use url_shortener::pagination::{last_page, page_offset, paginate};

fn float_last_page(total: i64, per_page: i64) -> i64 {
    if total == 0 {
        1
    } else {
        (total as f64 / per_page as f64).ceil() as i64
    }
}

#[test]
fn page_offset_counts_from_one() {
    assert_eq!(page_offset(1, 10), 0);
    assert_eq!(page_offset(3, 10), 20);
    assert_eq!(page_offset(0, 10), -10);
}

#[test]
fn last_page_values() {
    assert_eq!(last_page(0, 10), 1);
    assert_eq!(last_page(1, 10), 1);
    assert_eq!(last_page(20, 10), 2);
    assert_eq!(last_page(25, 10), 3);
    assert_eq!(last_page(5, 0), i64::MAX);
    assert_eq!(last_page(-5, 0), i64::MIN);
    assert_eq!(last_page(-25, 10), -2);
    assert_eq!(last_page(25, -10), -2);
    assert_eq!(last_page(-25, -10), 3);
    assert_eq!(last_page(i64::MIN, -1), i64::MAX);
    assert_eq!(last_page(i64::MAX, 1), i64::MAX);
    assert_eq!(last_page(i64::MIN, 1), i64::MIN);
}

#[test]
fn last_page_agrees_with_float_ceiling() {
    for total in -60i64..=60 {
        for per_page in -12i64..=12 {
            assert_eq!(last_page(total, per_page), float_last_page(total, per_page), "{} {}", total, per_page);
        }
    }
}

#[test]
fn pages_cover_listing() {
    for total in 1i64..200 {
        for per_page in 1i64..30 {
            let last = last_page(total, per_page);
            assert!(last >= 1);
            assert!(page_offset(last, per_page) < total);
            assert!(total <= last * per_page);
        }
    }
}

#[test]
fn paginate_keeps_items_and_numbers() {
    let item = UrlClickCount {
        url_id: 7,
        long_url: "https://example.com".to_string(),
        short_code: "abcdefghij".to_string(),
        click_count: 3,
    };
    let page: PaginatedResponse<UrlClickCount> = paginate(vec![item.clone()], 21, 2, 10);
    assert_eq!(page.items, vec![item]);
    assert_eq!(page.total, 21);
    assert_eq!(page.page, 2);
    assert_eq!(page.per_page, 10);
    assert_eq!(page.last_page, 3);
    let empty: PaginatedResponse<UrlClickCount> = paginate(Vec::new(), 0, 1, 10);
    assert_eq!(empty.last_page, 1);
}
