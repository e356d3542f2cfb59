use hide_my_email::{header_value_ok, merge_cookies, serialize_cookies, Cookie, ParseCookieError};

#[test]
fn cookie_from_str_empty() {
    let cookie = "";
    let result = Cookie::from_str(cookie);
    assert_eq!(result.is_err(), true);
    assert_eq!(result.unwrap_err(), ParseCookieError("".to_string()));
}

#[test]
fn cookie_from_str_valid() {
    let cookie = "x-APPLE-WEBAUTH-PCS-Documents=\"abc123==\"; X-APPLE-WEBAUTH-PCS-Photos=\"123+kv2==\"; X-APPLE-WEBAUTH-PCS-Cloudkit=\"1x73==233==\"; =banana";
    let test_output = vec![
        Cookie {
            name: "x-APPLE-WEBAUTH-PCS-Documents".to_string(),
            value: "\"abc123==\"".to_string(),
        },
        Cookie {
            name: "X-APPLE-WEBAUTH-PCS-Photos".to_string(),
            value: "\"123+kv2==\"".to_string(),
        },
        Cookie {
            name: "X-APPLE-WEBAUTH-PCS-Cloudkit".to_string(),
            value: "\"1x73==233==\"".to_string(),
        },
        Cookie {
            name: "".to_string(),
            value: "banana".to_string(),
        },
    ];
    let result: Result<Vec<Cookie>, ParseCookieError> = Cookie::from_str(cookie);
    assert_eq!(result.is_ok(), true);
    let result = result.unwrap();
    assert_eq!(result.len(), 4);
    for (a, b) in test_output.into_iter().zip(result) {
        assert_eq!(a, b);
    }
}

#[test]
fn cookie_from_str_error() {
    let cookie = "task=4343; session17373; client=abs31";
    let result = Cookie::from_str(cookie);
    assert_eq!(result.is_err(), true);
    assert_eq!(result.unwrap_err(), ParseCookieError("session17373".to_string()));
}

#[test]
fn parse_two_cookies_in_order() {
    let result = Cookie::from_str("a=1; b=2").unwrap();
    assert_eq!(result.len(), 2);
    assert_eq!(result[0], Cookie { name: "a".to_string(), value: "1".to_string() });
    assert_eq!(result[1], Cookie { name: "b".to_string(), value: "2".to_string() });
}

#[test]
fn parse_splits_at_first_equals_only() {
    let result = Cookie::from_str("k=a=b==c").unwrap();
    assert_eq!(result.len(), 1);
    assert_eq!(result[0], Cookie { name: "k".to_string(), value: "a=b==c".to_string() });
}

#[test]
fn serialize_joins_pairs() {
    let cookies = vec![
        Cookie { name: "a".to_string(), value: "1".to_string() },
        Cookie { name: "b".to_string(), value: "2".to_string() },
    ];
    assert_eq!(serialize_cookies(&cookies), "a=1; b=2".to_string());
    assert_eq!(serialize_cookies(&Vec::new()), "".to_string());
}

#[test]
fn merge_replaces_and_appends() {
    let existing = vec![
        Cookie { name: "a".to_string(), value: "1".to_string() },
        Cookie { name: "b".to_string(), value: "1".to_string() },
    ];
    let incoming = vec![Cookie { name: "a".to_string(), value: "2".to_string() }];
    let merged = merge_cookies(&existing, &incoming);
    assert_eq!(merged.len(), 2);
    assert_eq!(merged[0], Cookie { name: "b".to_string(), value: "1".to_string() });
    assert_eq!(merged[1], Cookie { name: "a".to_string(), value: "2".to_string() });
}

#[test]
fn merge_keeps_order_of_survivors_and_incoming() {
    let existing = vec![
        Cookie { name: "a".to_string(), value: "1".to_string() },
        Cookie { name: "b".to_string(), value: "2".to_string() },
        Cookie { name: "c".to_string(), value: "3".to_string() },
    ];
    let incoming = vec![
        Cookie { name: "c".to_string(), value: "9".to_string() },
        Cookie { name: "a".to_string(), value: "8".to_string() },
    ];
    let merged = merge_cookies(&existing, &incoming);
    assert_eq!(merged.len(), 3);
    assert_eq!(merged[0].name, "b".to_string());
    assert_eq!(merged[1].name, "c".to_string());
    assert_eq!(merged[1].value, "9".to_string());
    assert_eq!(merged[2].name, "a".to_string());
    assert_eq!(merged[2].value, "8".to_string());
}

#[test]
fn header_value_rules() {
    assert!(header_value_ok("a=1; b=2"));
    assert!(header_value_ok(""));
    assert!(header_value_ok("tab\tis fine"));
    assert!(!header_value_ok("no\nnewline"));
    assert!(!header_value_ok("no\u{7f}delete"));
}
