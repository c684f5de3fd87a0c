use neptune_apex::feed::Feed;

#[test]
fn each_feed_cycle_has_its_code() {
    assert_eq!(Feed::Cancel.code(), 0);
    assert_eq!(Feed::A.code(), 1);
    assert_eq!(Feed::B.code(), 2);
    assert_eq!(Feed::C.code(), 3);
    assert_eq!(Feed::D.code(), 4);
    assert_eq!(Feed::Inactive.code(), 256);
}

#[test]
fn each_code_decodes_to_its_feed_cycle() {
    assert_eq!(Feed::from_code(0), Some(Feed::Cancel));
    assert_eq!(Feed::from_code(1), Some(Feed::A));
    assert_eq!(Feed::from_code(2), Some(Feed::B));
    assert_eq!(Feed::from_code(3), Some(Feed::C));
    assert_eq!(Feed::from_code(4), Some(Feed::D));
    assert_eq!(Feed::from_code(256), Some(Feed::Inactive));
}

#[test]
fn feed_code_round_trips_for_all_six() {
    let all = [Feed::Cancel, Feed::A, Feed::B, Feed::C, Feed::D, Feed::Inactive];
    for feed in all {
        assert_eq!(Feed::from_code(feed.code()), Some(feed));
    }
}

#[test]
fn unknown_feed_codes_are_rejected() {
    for code in [5u32, 6, 100, 255, 257, 512, u32::MAX] {
        assert_eq!(Feed::from_code(code), None);
    }
}

#[test]
fn only_six_codes_below_a_thousand_decode() {
    let accepted = (0u32..1000).filter(|code| Feed::from_code(*code).is_some()).count();
    assert_eq!(accepted, 6);
    for code in 0u32..1000 {
        if let Some(feed) = Feed::from_code(code) {
            assert_eq!(feed.code(), code);
        }
    }
}
