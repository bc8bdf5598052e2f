use print_relay::apikit::{ApiRequest, HttpMethod};
use print_relay::apm::{adjusted_lcp, mac_device_id, mac_device_id_plan, windows_device_id, windows_device_id_plan, ContextData};
use print_relay::number::parse_u128;
use print_relay::platform::PlatformKind;
use print_relay::text::{contains, split_lines, split_on, split_words, text_eq, trim};

#[test]
fn request_defaults_to_post() {
    let r = ApiRequest::new("https://example.com/api");
    assert_eq!(r.url, "https://example.com/api");
    assert!(r.headers.is_empty());
    assert!(r.body.is_none());
    assert_eq!(r.method, HttpMethod::POST);
}

#[test]
fn header_is_replaced_not_duplicated() {
    let r = ApiRequest::new("u")
        .set_header("Content-Type", "text/plain")
        .set_header("Biz-Type", "apm_fe")
        .set_header("Content-Type", "application/json")
        .set_body("{}")
        .set_method(HttpMethod::GET);
    assert_eq!(
        r.headers,
        vec![
            ("Content-Type".to_string(), "application/json".to_string()),
            ("Biz-Type".to_string(), "apm_fe".to_string())
        ]
    );
    assert_eq!(r.body.as_deref(), Some("{}"));
    assert_eq!(r.method, HttpMethod::GET);
}

#[test]
fn decimal_numbers_parse_like_std() {
    assert_eq!(parse_u128("1234"), Some(1234));
    assert_eq!(parse_u128("+7"), Some(7));
    assert_eq!(parse_u128(""), None);
    assert_eq!(parse_u128("+"), None);
    assert_eq!(parse_u128("12a"), None);
    assert_eq!(parse_u128("-1"), None);
    assert_eq!(parse_u128("340282366920938463463374607431768211455"), Some(u128::MAX));
    assert_eq!(parse_u128("340282366920938463463374607431768211456"), None);
}

#[test]
fn lcp_is_measured_from_start() {
    assert_eq!(adjusted_lcp("app_performance", "windows_lcp", "1500", 1000), Some(500));
    assert_eq!(adjusted_lcp("app_performance", "mac_lcp", "1000", 1000), None);
    assert_eq!(adjusted_lcp("app_performance", "other", "1500", 1000), None);
    assert_eq!(adjusted_lcp("page_view", "mac_lcp", "1500", 1000), None);
    assert_eq!(adjusted_lcp("app_performance", "mac_lcp", "soon", 1000), None);
}

#[test]
fn device_id_is_second_line() {
    let out = "UUID  \r\n 4C4C4544-0042-3510-8052-B2C04F4E4B32  \r\n\r\n";
    assert_eq!(windows_device_id(out).as_deref(), Some("4C4C4544-0042-3510-8052-B2C04F4E4B32"));
    assert_eq!(windows_device_id("UUID"), None);
    assert_eq!(windows_device_id("UUID\n   \n"), None);
}

#[test]
fn context_fills_defaults() {
    let c = ContextData::new(42, PlatformKind::MacLike, None);
    assert_eq!(c.client_time, 42);
    assert_eq!(c.platform, "mac");
    assert_eq!(c.device_id, "unknown");
    assert_eq!(c.user_id, "unknown");
    assert_eq!(c.name_tracker, "wapT");
    let c = ContextData::new(1, PlatformKind::WindowsLegacy, Some("abc".to_string()));
    assert_eq!(c.device_id, "abc");
    assert_eq!(c.platform, "windows_7");
}

#[test]
fn text_helpers() {
    assert_eq!(trim(" \t a b \u{3000}"), "a b");
    assert_eq!(trim("   "), "");
    assert!(contains("xx S-1-5-32-544 yy", "S-1-5-32-544"));
    assert!(!contains("S-1-5-32", "S-1-5-32-544"));
    assert!(contains("abc", ""));
    assert!(text_eq("ab", "ab"));
    assert!(!text_eq("ab", "abc"));
    assert_eq!(split_words(" a  bc\td "), vec!["a".to_string(), "bc".to_string(), "d".to_string()]);
}

#[test]
fn mac_device_id_is_fourth_quoted_piece() {
    let out = "+-o Mac  <class IOPlatformExpertDevice>\n    {\n      \"IOPlatformSerialNumber\" = \"C02XX\"\n      \"IOPlatformUUID\" = \" 1A2B-3C4D \"\n      \"IOPlatformUUID\" = \"second\"\n";
    assert_eq!(mac_device_id(out).as_deref(), Some("1A2B-3C4D"));
    assert_eq!(mac_device_id("\"IOPlatformUUID\" = 12"), None);
    assert_eq!(mac_device_id("nothing"), None);
    assert_eq!(mac_device_id_plan().program, "ioreg");
    assert_eq!(windows_device_id_plan().args, vec!["csproduct".to_string(), "get".to_string(), "uuid".to_string()]);
}

#[test]
fn splitting_keeps_empty_pieces() {
    assert_eq!(split_on("a\"\"b", '"'), vec!["a".to_string(), "".to_string(), "b".to_string()]);
    assert_eq!(split_lines("x\n"), vec!["x".to_string(), "".to_string()]);
    assert_eq!(split_lines(""), vec!["".to_string()]);
}
