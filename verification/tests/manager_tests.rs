use hide_my_email::{
    check_claim, claim_payload, Cookie, Error, HMEReserveResult, HideMyEmailManager, ICloudClient,
};

fn c(name: &str, value: &str) -> Cookie {
    Cookie { name: name.to_string(), value: value.to_string() }
}

fn validated_manager() -> HideMyEmailManager {
    let mut client = ICloudClient::new(&[c("sid", "1")]);
    let body = "{\"webservices\":{\"premiummailsettings\":{\"url\":\"https://p42.example.com/v1\",\"status\":\"active\"}}}";
    client.validate(200, body, &Vec::new()).unwrap();
    HideMyEmailManager::from(client)
}

fn reserve_body(hme: &str, active: bool) -> String {
    let mut s = String::new();
    s.push_str("{\"success\":true,\"timestamp\":1234,\"result\":{\"hme\":{");
    s.push_str("\"origin\":\"ON_DEMAND\",\"anonymousId\":\"anon-1\",\"domain\":\"example.com\",");
    s.push_str("\"hme\":\"");
    s.push_str(hme);
    s.push_str("\",\"label\":\"L\",\"note\":\"N\",\"createTimestamp\":99,");
    s.push_str("\"isActive\":");
    s.push_str(if active { "true" } else { "false" });
    s.push_str(",\"recipientMailId\":\"rm-1\"}}}");
    s
}

#[test]
fn manager_snapshots_cookie_header() {
    let manager = validated_manager();
    assert_eq!(manager.cookie_header(), &"sid=1".to_string());
}

#[test]
fn urls_come_from_the_directory() {
    let manager = validated_manager();
    assert_eq!(
        manager.generate_url().unwrap(),
        "https://p42.example.com/v1/v1/hme/generate".to_string()
    );
    assert_eq!(manager.list_url().unwrap(), "https://p42.example.com/v1/v2/hme/list".to_string());
    let req = manager.claim_request("x@example.com", "L", "N").unwrap();
    assert_eq!(req.url, "https://p42.example.com/v1/v1/hme/reserve".to_string());
    assert_eq!(req.hme, "x@example.com".to_string());
    assert_eq!(
        req.payload,
        "{\"hme\":\"x@example.com\",\"label\":\"L\",\"note\":\"N\"}".to_string()
    );
}

#[test]
fn missing_base_url_without_validation() {
    let client = ICloudClient::new(&[]);
    let manager = HideMyEmailManager::from(client);
    assert_eq!(manager.generate_url().unwrap_err(), Error::MissingBaseUrl);
    assert_eq!(
        manager.generate(200, "{}").unwrap_err(),
        Error::MissingBaseUrl
    );
    assert_eq!(manager.list(200, "{}").unwrap_err(), Error::MissingBaseUrl);
    assert_eq!(
        manager.claim("x@example.com", 200, "{}").unwrap_err(),
        Error::MissingBaseUrl
    );
}

#[test]
fn claim_payload_escapes_json() {
    assert_eq!(
        claim_payload("a\"b\\c\n", "", ""),
        "{\"hme\":\"a\\\"b\\\\c\\n\",\"label\":\"\",\"note\":\"\"}".to_string()
    );
    assert_eq!(
        claim_payload("x", "tab\t", "ctl\u{1}"),
        "{\"hme\":\"x\",\"label\":\"tab\\t\",\"note\":\"ctl\\u0001\"}".to_string()
    );
}

#[test]
fn generate_returns_the_fresh_address() {
    let manager = validated_manager();
    let body = "{\"success\":true,\"timestamp\":1234,\"result\":{\"hme\":\"x@example.com\"}}";
    assert_eq!(manager.generate(200, body).unwrap(), "x@example.com".to_string());
}

#[test]
fn generate_http_error_is_transport_error() {
    let manager = validated_manager();
    let e = manager.generate(500, "oops").unwrap_err();
    assert_eq!(e, Error::Transport { status: 500, body: "oops".to_string() });
    let msg = e.message();
    assert!(msg.contains("500"));
    assert!(msg.contains("oops"));
}

#[test]
fn generate_wrong_shape_is_decode_error() {
    let manager = validated_manager();
    let body = reserve_body("x@example.com", true);
    match manager.generate(200, &body) {
        Err(Error::Decode { .. }) => {},
        r => panic!("expected a decode error, got {:?}", r),
    }
    match manager.generate(200, "{\"result\":{\"hme\":\"x\"}}") {
        Err(Error::Decode { .. }) => {},
        r => panic!("expected a decode error, got {:?}", r),
    }
}

#[test]
fn claim_wrong_shape_is_decode_error() {
    let manager = validated_manager();
    let body = "{\"success\":true,\"timestamp\":1234,\"result\":{\"hme\":\"x@example.com\"}}";
    match manager.claim("x@example.com", 200, body) {
        Err(Error::Decode { .. }) => {},
        r => panic!("expected a decode error, got {:?}", r),
    }
}

#[test]
fn list_missing_envelope_field_is_decode_error() {
    let manager = validated_manager();
    let body = "{\"success\":true,\"result\":{\"forwardToEmails\":[],\"hmeEmails\":[],\"selectedForwardTo\":\"me@example.com\"}}";
    match manager.list(200, body) {
        Err(Error::Decode { .. }) => {},
        r => panic!("expected a decode error, got {:?}", r),
    }
}

#[test]
fn transport_message_renders_any_status() {
    let e = Error::Transport { status: 418, body: "short and stout".to_string() };
    assert_eq!(
        e.message(),
        "Failed to send request | Status: 418 | Response: short and stout".to_string()
    );
}

#[test]
fn claim_succeeds_on_active_matching_record() {
    let manager = validated_manager();
    let body = reserve_body("x@example.com", true);
    let record = manager.claim("x@example.com", 200, &body).unwrap();
    assert_eq!(record.hme, "x@example.com".to_string());
    assert_eq!(record.is_active, true);
    assert_eq!(record.label, "L".to_string());
    assert_eq!(record.create_timestamp, 99);
    assert_eq!(record.recipient_mail_id, "rm-1".to_string());
}

#[test]
fn claim_rejects_inactive_record() {
    let manager = validated_manager();
    let body = reserve_body("x@example.com", false);
    let e = manager.claim("x@example.com", 200, &body).unwrap_err();
    assert_eq!(
        e,
        Error::ClaimRejected {
            email: "x@example.com".to_string(),
            active: false,
            hme: "x@example.com".to_string(),
        }
    );
    let msg = e.message();
    assert!(msg.contains("x@example.com"));
    assert!(msg.contains("Active: false"));
}

#[test]
fn claim_rejects_substituted_address() {
    let manager = validated_manager();
    let body = reserve_body("y@example.com", true);
    let e = manager.claim("x@example.com", 200, &body).unwrap_err();
    assert_eq!(
        e,
        Error::ClaimRejected {
            email: "x@example.com".to_string(),
            active: true,
            hme: "y@example.com".to_string(),
        }
    );
}

#[test]
fn claim_http_error_is_transport_error() {
    let manager = validated_manager();
    let e = manager.claim("x@example.com", 500, "oops").unwrap_err();
    assert_eq!(e, Error::Transport { status: 500, body: "oops".to_string() });
}

#[test]
fn check_claim_accepts_only_active_match() {
    let record = HMEReserveResult {
        origin: "ON_DEMAND".to_string(),
        anonymous_id: "anon-1".to_string(),
        domain: "example.com".to_string(),
        hme: "x@example.com".to_string(),
        label: "L".to_string(),
        note: "N".to_string(),
        create_timestamp: 99,
        is_active: true,
        recipient_mail_id: "rm-1".to_string(),
    };
    assert!(check_claim(record, "x@example.com").is_ok());
    let inactive = HMEReserveResult {
        origin: "ON_DEMAND".to_string(),
        anonymous_id: "anon-1".to_string(),
        domain: "example.com".to_string(),
        hme: "x@example.com".to_string(),
        label: "L".to_string(),
        note: "N".to_string(),
        create_timestamp: 99,
        is_active: false,
        recipient_mail_id: "rm-1".to_string(),
    };
    let e = check_claim(inactive, "x@example.com").unwrap_err();
    assert_eq!(
        e,
        Error::ClaimRejected {
            email: "x@example.com".to_string(),
            active: false,
            hme: "x@example.com".to_string(),
        }
    );
}

#[test]
fn list_decodes_the_full_result() {
    let manager = validated_manager();
    let mut body = String::new();
    body.push_str("{\"success\":true,\"timestamp\":7,\"result\":{");
    body.push_str("\"forwardToEmails\":[\"me@example.com\",\"alt@example.com\"],");
    body.push_str("\"hmeEmails\":[{\"origin\":\"ON_DEMAND\",\"anonymousId\":\"anon-1\",");
    body.push_str("\"domain\":\"example.com\",\"forwardToEmail\":\"me@example.com\",");
    body.push_str("\"hme\":\"x@example.com\",\"label\":\"Rust Test\",\"note\":\"N\",");
    body.push_str("\"createTimestamp\":99,\"isActive\":true,\"recipientMailId\":\"rm-1\"}],");
    body.push_str("\"selectedForwardTo\":\"me@example.com\"}}");
    let body = body.as_str();
    let result = manager.list(200, body).unwrap();
    assert_eq!(result.forward_to_emails.len(), 2);
    assert_eq!(result.forward_to_emails[0], "me@example.com".to_string());
    assert_eq!(result.hme_emails.len(), 1);
    assert_eq!(result.hme_emails[0].label, "Rust Test".to_string());
    assert_eq!(result.hme_emails[0].forward_to_email, "me@example.com".to_string());
    assert_eq!(result.selected_forward_to, "me@example.com".to_string());
    assert!(result
        .hme_emails
        .iter()
        .find(|e| e.label == "Rust Test".to_string())
        .is_some());
}

#[test]
fn list_http_error_is_transport_error() {
    let manager = validated_manager();
    let e = manager.list(500, "oops").unwrap_err();
    assert_eq!(e, Error::Transport { status: 500, body: "oops".to_string() });
    let msg = e.message();
    assert!(msg.contains("500"));
    assert!(msg.contains("oops"));
}

#[test]
fn generate_and_claim_returns_the_address() {
    let manager = validated_manager();
    let gen_body = "{\"success\":true,\"timestamp\":1234,\"result\":{\"hme\":\"x@example.com\"}}";
    let claim_body = reserve_body("x@example.com", true);
    let r = manager.generate_and_claim("L", "N", 200, gen_body, 200, &claim_body);
    assert_eq!(r.unwrap(), "x@example.com".to_string());
}

#[test]
fn generate_and_claim_propagates_claim_failure() {
    let manager = validated_manager();
    let gen_body = "{\"success\":true,\"timestamp\":1234,\"result\":{\"hme\":\"x@example.com\"}}";
    let e = manager
        .generate_and_claim("L", "N", 200, gen_body, 500, "oops")
        .unwrap_err();
    assert_eq!(e, Error::Transport { status: 500, body: "oops".to_string() });
    let bad_claim = reserve_body("x@example.com", false);
    let e2 = manager
        .generate_and_claim("L", "N", 200, gen_body, 200, &bad_claim)
        .unwrap_err();
    assert_eq!(
        e2,
        Error::ClaimRejected {
            email: "x@example.com".to_string(),
            active: false,
            hme: "x@example.com".to_string(),
        }
    );
}

#[test]
fn error_messages_name_each_condition() {
    assert_eq!(
        Error::MissingService.message(),
        "Missing Hide my email service".to_string()
    );
    assert_eq!(
        Error::MissingStatus.message(),
        "Hide my email missing status".to_string()
    );
    assert_eq!(
        Error::Inactive.message(),
        "Hide my email is inactive/disabled".to_string()
    );
    assert_eq!(Error::MissingBaseUrl.message(), "Missing Base URL".to_string());
    assert_eq!(
        Error::ClaimRejected {
            email: "x@example.com".to_string(),
            active: false,
            hme: "y@example.com".to_string(),
        }
        .message(),
        "Hide my email for x@example.com is inactive/invalid, Active: false, HME: y@example.com"
            .to_string()
    );
}
