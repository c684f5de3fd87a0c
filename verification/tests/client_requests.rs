use neptune_apex::client::Apex;
use neptune_apex::error::ApexError;
use neptune_apex::http::{ContentType, Method, StatusCode};

#[test]
fn new_client_has_the_base_url_of_its_host() {
    let apex = Apex::new("apex.local", "admin", "1234", None).unwrap();
    assert_eq!(apex.url(""), "http://apex.local/");
    assert_eq!(apex.url("rest/status"), "http://apex.local/rest/status");
    assert_eq!(apex.url("rest/login"), "http://apex.local/rest/login");
}

#[test]
fn new_client_without_token_holds_no_credential() {
    let apex = Apex::new("10.0.0.5", "admin", "1234", None).unwrap();
    assert!(!apex.has_credential());
    assert_eq!(apex.credential(), None);
}

#[test]
fn new_client_keeps_a_saved_token() {
    let apex = Apex::new("10.0.0.5", "admin", "1234", Some("saved")).unwrap();
    assert!(apex.has_credential());
    assert_eq!(apex.credential(), Some("saved"));
}

#[test]
fn new_client_accepts_empty_credentials() {
    let apex = Apex::new("apex", "", "", Some("token")).unwrap();
    let request = apex.login_request();
    assert_eq!(
        request.body.unwrap(),
        b"{\"login\":\"\",\"password\":\"\",\"remember_me\":false}".to_vec()
    );
}

#[test]
fn set_credential_replaces_whatever_was_held() {
    let mut apex = Apex::new("apex", "admin", "1234", None).unwrap();
    apex.set_credential(String::from("first"));
    assert!(apex.has_credential());
    assert_eq!(apex.credential(), Some("first"));
    apex.set_credential(String::from("second"));
    assert_eq!(apex.credential(), Some("second"));
}

#[test]
fn clear_credential_leaves_none() {
    let mut apex = Apex::new("apex", "admin", "1234", Some("held")).unwrap();
    apex.clear_credential();
    assert!(!apex.has_credential());
    assert_eq!(apex.credential(), None);
    apex.clear_credential();
    assert!(!apex.has_credential());
}

#[test]
fn credential_changes_leave_the_configuration_alone() {
    let mut apex = Apex::new("apex", "admin", "1234", None).unwrap();
    let before = apex.login_request();
    apex.set_credential(String::from("token"));
    apex.clear_credential();
    let after = apex.login_request();
    assert_eq!(before.url, after.url);
    assert_eq!(before.body, after.body);
    assert_eq!(apex.url("x"), "http://apex/x");
}

#[test]
fn login_request_posts_the_credentials_as_json() {
    let apex = Apex::new("apex.local", "admin", "1234", Some("old")).unwrap();
    let request = apex.login_request();
    assert_eq!(request.method, Method::Post);
    assert_eq!(request.url, "http://apex.local/rest/login");
    assert_eq!(request.content_type, Some(ContentType::ApplicationJson));
    assert_eq!(request.headers.len(), 1);
    assert_eq!(request.headers[0].name, "Accept");
    assert_eq!(request.headers[0].value, "*/*");
    assert_eq!(
        request.body.unwrap(),
        b"{\"login\":\"admin\",\"password\":\"1234\",\"remember_me\":false}".to_vec()
    );
}

#[test]
fn login_request_escapes_the_credentials() {
    let apex = Apex::new("apex", "ad\"min", "p\\w\n\u{1}\u{e9}", None).unwrap();
    let body = apex.login_request().body.unwrap();
    assert_eq!(
        String::from_utf8(body.clone()).unwrap(),
        "{\"login\":\"ad\\\"min\",\"password\":\"p\\\\w\\n\\u0001\u{e9}\",\"remember_me\":false}"
    );
    let value: serde_json::Value = serde_json::from_slice(&body).unwrap();
    assert_eq!(value["login"].as_str(), Some("ad\"min"));
    assert_eq!(value["password"].as_str(), Some("p\\w\n\u{1}\u{e9}"));
    assert_eq!(value["remember_me"].as_bool(), Some(false));
    assert_eq!(value.as_object().unwrap().len(), 3);
}

#[test]
fn authenticated_request_presents_the_session_cookie() {
    let apex = Apex::new("apex.local", "admin", "1234", Some("abc123")).unwrap();
    let request = apex.authenticated(Method::Get, "rest/status", None).unwrap();
    assert_eq!(request.method, Method::Get);
    assert_eq!(request.url, "http://apex.local/rest/status");
    assert_eq!(request.content_type, None);
    assert_eq!(request.headers.len(), 2);
    assert_eq!(request.headers[0].name, "Accept");
    assert_eq!(request.headers[0].value, "*/*");
    assert_eq!(request.headers[1].name, "Cookie");
    assert_eq!(request.headers[1].value, "connect.sid=abc123");
    assert_eq!(request.body, None);
}

#[test]
fn authenticated_request_carries_the_body() {
    let apex = Apex::new("apex.local", "admin", "1234", Some("abc123")).unwrap();
    let request = apex.authenticated(Method::Put, "rest/x", Some(&[1u8, 2, 3][..])).unwrap();
    assert_eq!(request.method, Method::Put);
    assert_eq!(request.body, Some(vec![1u8, 2, 3]));
    let empty = apex.authenticated(Method::Put, "rest/x", Some(&[][..])).unwrap();
    assert_eq!(empty.body, Some(Vec::new()));
}

#[test]
fn authenticated_request_needs_a_credential() {
    let apex = Apex::new("apex.local", "admin", "1234", None).unwrap();
    assert!(apex.authenticated(Method::Get, "rest/status", None).is_none());
}

#[test]
fn errors_wrap_what_the_other_crates_report() {
    let transport = ApexError::from(reqwless::Error::Dns);
    assert!(matches!(transport, ApexError::Request(reqwless::Error::Dns)));
    let broken = serde_json::from_str::<u32>("x").unwrap_err();
    let text = broken.to_string();
    match ApexError::from(broken) {
        ApexError::Json(error) => assert_eq!(error.to_string(), text),
        other => panic!("{:?}", other),
    }
    assert!(matches!(ApexError::Http(StatusCode(500)), ApexError::Http(StatusCode(500))));
}
