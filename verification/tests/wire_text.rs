use neptune_apex::client::{feed_body, feed_path, login_body};
use neptune_apex::feed::Feed;
use neptune_apex::http::StatusCode;
use neptune_apex::text::decimal;

#[test]
fn decimal_of_single_digits() {
    assert_eq!(decimal(0), "0");
    assert_eq!(decimal(7), "7");
    assert_eq!(decimal(9), "9");
}

#[test]
fn decimal_of_longer_numbers() {
    assert_eq!(decimal(10), "10");
    assert_eq!(decimal(256), "256");
    assert_eq!(decimal(1000), "1000");
    assert_eq!(decimal(90210), "90210");
    assert_eq!(decimal(u32::MAX), "4294967295");
}

#[test]
fn decimal_agrees_with_the_standard_formatting() {
    for n in (0u32..5000).chain([65535, 65536, 99999, 100000, 4294967294]) {
        assert_eq!(decimal(n), n.to_string());
    }
}

#[test]
fn login_body_frames_the_two_literals() {
    assert_eq!(
        login_body("\"admin\"", "\"1234\""),
        "{\"login\":\"admin\",\"password\":\"1234\",\"remember_me\":false}"
    );
    assert_eq!(login_body("A", "B"), "{\"login\":A,\"password\":B,\"remember_me\":false}");
}

#[test]
fn feed_body_names_the_cycle_by_its_code() {
    assert_eq!(
        feed_body(Feed::A),
        "{\"name\":1,\"active\":1,\"error_code\":0,\"error_message\":\"\"}"
    );
    assert_eq!(
        feed_body(Feed::Cancel),
        "{\"name\":0,\"active\":1,\"error_code\":0,\"error_message\":\"\"}"
    );
    assert_eq!(
        feed_body(Feed::Inactive),
        "{\"name\":256,\"active\":1,\"error_code\":0,\"error_message\":\"\"}"
    );
}

#[test]
fn feed_body_is_the_json_of_the_command() {
    let value: serde_json::Value = serde_json::from_str(&feed_body(Feed::D)).unwrap();
    let object = value.as_object().unwrap();
    assert_eq!(object.len(), 4);
    assert_eq!(object["name"].as_u64(), Some(4));
    assert_eq!(object["active"].as_u64(), Some(1));
    assert_eq!(object["error_code"].as_u64(), Some(0));
    assert_eq!(object["error_message"].as_str(), Some(""));
}

#[test]
fn feed_path_ends_in_the_code() {
    assert_eq!(feed_path(Feed::Cancel), "rest/status/feed/0");
    assert_eq!(feed_path(Feed::A), "rest/status/feed/1");
    assert_eq!(feed_path(Feed::B), "rest/status/feed/2");
    assert_eq!(feed_path(Feed::C), "rest/status/feed/3");
    assert_eq!(feed_path(Feed::D), "rest/status/feed/4");
    assert_eq!(feed_path(Feed::Inactive), "rest/status/feed/256");
}

#[test]
fn success_is_the_class_from_200_to_299() {
    assert!(!StatusCode(0).is_successful());
    assert!(!StatusCode(199).is_successful());
    assert!(StatusCode(200).is_successful());
    assert!(StatusCode(204).is_successful());
    assert!(StatusCode(299).is_successful());
    assert!(!StatusCode(300).is_successful());
    assert!(!StatusCode(403).is_successful());
    assert!(!StatusCode(u16::MAX).is_successful());
    for code in 0..=u16::MAX {
        assert_eq!(StatusCode(code).is_successful(), (200..=299).contains(&code));
    }
}

#[test]
fn only_403_rejects_the_session() {
    assert!(StatusCode(403).is_forbidden());
    assert!(!StatusCode(401).is_forbidden());
    assert!(!StatusCode(200).is_forbidden());
    assert!(!StatusCode(0).is_forbidden());
    for code in 0..=u16::MAX {
        assert_eq!(StatusCode(code).is_forbidden(), code == 403);
    }
}
