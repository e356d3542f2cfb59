use hide_my_email::{Cookie, Error, ICloudClient};

fn c(name: &str, value: &str) -> Cookie {
    Cookie { name: name.to_string(), value: value.to_string() }
}

#[test]
fn validate_missing_service_fails() {
    let mut client = ICloudClient::new(&[]);
    let body = "{\"webservices\":{\"mail\":{\"url\":\"https://mail.example.com\",\"status\":\"active\"}}}";
    let r = client.validate(200, body, &Vec::new());
    assert_eq!(r.unwrap_err(), Error::MissingService);
}

#[test]
fn validate_missing_status_fails() {
    let mut client = ICloudClient::new(&[]);
    let body = "{\"webservices\":{\"premiummailsettings\":{\"url\":\"https://p.example.com\"}}}";
    let r = client.validate(200, body, &Vec::new());
    assert_eq!(r.unwrap_err(), Error::MissingStatus);
}

#[test]
fn validate_inactive_service_fails() {
    let mut client = ICloudClient::new(&[]);
    let body = "{\"webservices\":{\"premiummailsettings\":{\"url\":\"https://p.example.com\",\"status\":\"inactive\"}}}";
    let r = client.validate(200, body, &Vec::new());
    assert_eq!(r.unwrap_err(), Error::Inactive);
}

#[test]
fn validate_active_service_succeeds_and_keeps_directory() {
    let mut client = ICloudClient::new(&[c("sid", "1")]);
    let body = "{\"webservices\":{\"premiummailsettings\":{\"url\":\"https://p.example.com\",\"status\":\"active\"}}}";
    let r = client.validate(200, body, &Vec::new());
    assert!(r.is_ok());
    let services = client.services();
    assert_eq!(services.len(), 1);
    assert_eq!(services[0].name, "premiummailsettings".to_string());
    assert_eq!(services[0].service.url, Some("https://p.example.com".to_string()));
    assert_eq!(services[0].service.status, Some("active".to_string()));
}

#[test]
fn validate_merges_response_cookies() {
    let mut client = ICloudClient::new(&[c("a", "1"), c("b", "1")]);
    let body = "{\"webservices\":{\"premiummailsettings\":{\"url\":\"https://p.example.com\",\"status\":\"active\"}}}";
    let resp_cookies = vec![c("a", "2")];
    client.validate(200, body, &resp_cookies).unwrap();
    let cookies = client.cookies();
    assert_eq!(cookies.len(), 2);
    assert_eq!(cookies[0], c("b", "1"));
    assert_eq!(cookies[1], c("a", "2"));
    assert_eq!(client.cookie_header(), "b=1; a=2".to_string());
}

#[test]
fn validate_error_leaves_client_unchanged() {
    let mut client = ICloudClient::new(&[c("a", "1")]);
    let bad = "{\"webservices\":{}}";
    let r = client.validate(200, bad, &vec![c("a", "2")]);
    assert_eq!(r.unwrap_err(), Error::MissingService);
    assert_eq!(client.cookies().len(), 1);
    assert_eq!(client.cookies()[0], c("a", "1"));
    assert_eq!(client.services().len(), 0);
}

#[test]
fn validate_http_error_is_transport_error() {
    let mut client = ICloudClient::new(&[]);
    let r = client.validate(500, "oops", &Vec::new());
    let e = r.unwrap_err();
    assert_eq!(e, Error::Transport { status: 500, body: "oops".to_string() });
    let msg = e.message();
    assert!(msg.contains("500"));
    assert!(msg.contains("oops"));
    assert_eq!(msg, "Failed to send request | Status: 500 | Response: oops".to_string());
}

#[test]
fn validate_bad_json_is_decode_error() {
    let mut client = ICloudClient::new(&[]);
    let r = client.validate(200, "not json at all", &Vec::new());
    match r.unwrap_err() {
        Error::Decode { .. } => {},
        e => panic!("expected a decode error, got {:?}", e),
    }
}

#[test]
fn validate_url_is_fixed() {
    assert_eq!(
        ICloudClient::validate_url(),
        "https://setup.icloud.com/setup/ws/1/validate".to_string()
    );
}
