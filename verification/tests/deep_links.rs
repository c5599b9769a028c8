use game_overlay::deep_link::{callback_url, is_callback_url};

#[test]
fn callback_schemes_are_accepted() {
    assert!(is_callback_url("myapp://callback?code=XXX"));
    assert!(is_callback_url("prophase://auth"));
    assert!(is_callback_url("myapp://"));
    assert!(!is_callback_url("https://example.com/myapp://"));
    assert!(!is_callback_url("myapp:/x"));
    assert!(!is_callback_url("MYAPP://x"));
    assert!(!is_callback_url(""));
}

#[test]
fn address_is_taken_out_of_the_payload() {
    assert_eq!(callback_url("[\"myapp://callback?code=XXX\"]"), Some("myapp://callback?code=XXX"));
    assert_eq!(callback_url("[\"prophase://a\"]"), Some("prophase://a"));
    assert_eq!(callback_url("[prophase://a]"), Some("prophase://a"));
    assert_eq!(
        callback_url("[\"myapp://a\",\"myapp://b\"]"),
        Some("myapp://a\",\"myapp://b")
    );
}

#[test]
fn other_payloads_give_no_address() {
    assert_eq!(callback_url("\"myapp://a\""), None);
    assert_eq!(callback_url("[\"https://a\"]"), None);
    assert_eq!(callback_url("[\"myapp://a\""), None);
    assert_eq!(callback_url("[]"), None);
    assert_eq!(callback_url("["), None);
    assert_eq!(callback_url("]"), None);
    assert_eq!(callback_url(""), None);
    assert_eq!(callback_url("[\"\"]"), None);
}
