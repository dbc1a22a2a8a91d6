use url_shortener::cache_key::{expiry_after_read, format_url_key, URL_CACHE_TTL, URL_KEY_PREFIX};
use url_shortener::search::search_pattern;
use url_shortener::short_code::{generate_short_code, SHORT_CODE_LEN};
use url_shortener::text::{chars_of, is_white_space_char, text_before_char, trim};

#[test]
fn format_url_key_prefixes_code() {
    assert_eq!(format_url_key("abc123"), "url:abc123");
    assert_eq!(format_url_key(""), "url:");
    assert_eq!(URL_KEY_PREFIX, "url:");
    assert_eq!(URL_CACHE_TTL, 3600);
}

#[test]
fn distinct_codes_get_distinct_keys() {
    assert_ne!(format_url_key("abc"), format_url_key("abd"));
    assert_ne!(format_url_key("ab"), format_url_key("abc"));
}

#[test]
fn cache_hit_refreshes_expiry() {
    assert_eq!(expiry_after_read(true, URL_CACHE_TTL), Some(3600));
    assert_eq!(expiry_after_read(false, URL_CACHE_TTL), None);
    assert_eq!(expiry_after_read(true, u64::MAX), Some(-1));
}

#[test]
fn generated_codes_have_ten_url_safe_symbols() {
    for _ in 0..50 {
        let code = generate_short_code();
        assert_eq!(code.chars().count(), SHORT_CODE_LEN);
        assert!(code
            .chars()
            .all(|c| c == '_' || c == '-' || c.is_ascii_alphanumeric()));
    }
}

#[test]
fn white_space_matches_std() {
    for u in 0u32..0x3100 {
        if let Some(c) = char::from_u32(u) {
            assert_eq!(is_white_space_char(c), c.is_whitespace(), "{:x}", u);
        }
    }
    assert!(!is_white_space_char('\u{200B}'));
}

#[test]
fn chars_of_keeps_order() {
    assert_eq!(chars_of("aĐb"), vec!['a', 'Đ', 'b']);
    assert!(chars_of("").is_empty());
}

#[test]
fn trim_matches_std() {
    for s in ["  a b \t\n", "\u{3000}x\u{a0}", "   ", "", "abc", " Định dạng ", "\u{85}q\u{2028}"] {
        assert_eq!(trim(s), s.trim());
    }
    assert_eq!(trim(&trim(" x ")), "x");
}

#[test]
fn text_before_first_comma() {
    assert_eq!(text_before_char("1.1.1.1, 2.2.2.2", ','), "1.1.1.1");
    assert_eq!(text_before_char("no comma", ','), "no comma");
    assert_eq!(text_before_char(",lead", ','), "");
    assert_eq!(text_before_char("", ','), "");
    for s in ["a,b,c", "x", ",", "ab,"] {
        assert_eq!(text_before_char(s, ','), s.split(',').next().unwrap());
    }
}

#[test]
fn search_pattern_wraps_trimmed_term() {
    assert_eq!(search_pattern(None), None);
    assert_eq!(search_pattern(Some(String::new())), None);
    assert_eq!(search_pattern(Some("   \t".to_string())), None);
    assert_eq!(search_pattern(Some(" abc ".to_string())), Some("%abc%".to_string()));
    assert_eq!(search_pattern(Some("a b".to_string())), Some("%a b%".to_string()));
}
