use nango_client::default_required_x_oauth_scopes;
use nango_client::OAuth2Token;

fn document(text: &str) -> serde_json::Value {
    serde_json::from_str(text).unwrap()
}

fn token_with_scope(scope: &str) -> OAuth2Token {
    OAuth2Token::from_fields(Some("bearer"), Some("abc123"), Some(scope), None)
}

#[test]
fn from_fields_takes_what_is_given() {
    let token = OAuth2Token::from_fields(Some("bearer"), Some("abc123"), Some("a b"), Some(7200));
    assert_eq!(
        token,
        OAuth2Token {
            token_type: "bearer".to_string(),
            access_token: "abc123".to_string(),
            scope: "a b".to_string(),
            expires_in: Some(7200),
        }
    );
}

#[test]
fn from_fields_reads_an_absent_text_as_empty() {
    let token = OAuth2Token::from_fields(None, None, None, None);
    assert_eq!(token.token_type, "");
    assert_eq!(token.access_token, "");
    assert_eq!(token.scope, "");
    assert_eq!(token.expires_in, None);
}

#[test]
fn from_raw_reads_every_field() {
    let raw = document(
        r#"{"token_type":"bearer","access_token":"abc123","scope":"tweet.read users.read","expires_in":7200}"#,
    );
    let token = OAuth2Token::from_raw(&raw).unwrap();
    assert_eq!(token.token_type, "bearer");
    assert_eq!(token.access_token, "abc123");
    assert_eq!(token.scope, "tweet.read users.read");
    assert_eq!(token.expires_in, Some(7200));
}

#[test]
fn from_raw_reads_missing_fields_as_empty() {
    let token = OAuth2Token::from_raw(&document("{}")).unwrap();
    assert_eq!(token, OAuth2Token::from_fields(None, None, None, None));
}

#[test]
fn from_raw_reads_fields_of_another_type_as_empty() {
    let raw = document(
        r#"{"token_type":1,"access_token":null,"scope":["tweet.read"],"expires_in":"7200"}"#,
    );
    let token = OAuth2Token::from_raw(&raw).unwrap();
    assert_eq!(token, OAuth2Token::from_fields(None, None, None, None));
}

#[test]
fn from_raw_reads_a_payload_that_is_no_object_as_empty() {
    for text in ["null", "5", "\"bearer\"", "[1, 2]", "true"] {
        let token = OAuth2Token::from_raw(&document(text)).unwrap();
        assert_eq!(token, OAuth2Token::from_fields(None, None, None, None), "{}", text);
    }
}

#[test]
fn from_raw_keeps_only_a_lifetime_that_is_an_integer_of_64_bits() {
    let lifetime = |text: &str| OAuth2Token::from_raw(&document(text)).unwrap().expires_in;
    assert_eq!(lifetime(r#"{"expires_in":0}"#), Some(0));
    assert_eq!(lifetime(r#"{"expires_in":-5}"#), Some(-5));
    assert_eq!(lifetime(r#"{"expires_in":9223372036854775807}"#), Some(i64::MAX));
    assert_eq!(lifetime(r#"{"expires_in":-9223372036854775808}"#), Some(i64::MIN));
    assert_eq!(lifetime(r#"{"expires_in":9223372036854775808}"#), None);
    assert_eq!(lifetime(r#"{"expires_in":7200.0}"#), None);
    assert_eq!(lifetime(r#"{"expires_in":7.2e3}"#), None);
    assert_eq!(lifetime(r#"{"expires_in":null}"#), None);
    assert_eq!(lifetime(r#"{"expires_in":true}"#), None);
}

#[test]
fn from_raw_ignores_other_members() {
    let raw = document(r#"{"access_token":"abc123","refresh_token":"r","nested":{"scope":"x"}}"#);
    let token = OAuth2Token::from_raw(&raw).unwrap();
    assert_eq!(token, OAuth2Token::from_fields(None, Some("abc123"), None, None));
}

#[test]
fn scopes_are_the_words_of_the_scope_text() {
    let scopes = token_with_scope("tweet.read users.read").scopes();
    assert_eq!(scopes.len(), 2);
    assert!(scopes.contains("tweet.read"));
    assert!(scopes.contains("users.read"));
    assert!(!scopes.contains("tweet.write"));
    assert!(!scopes.contains("tweet.read users.read"));
    assert!(!scopes.contains(""));
}

#[test]
fn scopes_of_an_empty_scope_text_are_empty() {
    let scopes = token_with_scope("").scopes();
    assert!(scopes.is_empty());
    assert_eq!(scopes.len(), 0);
    assert!(token_with_scope(" \t\n").scopes().is_empty());
}

#[test]
fn scopes_hold_each_scope_once() {
    let scopes = token_with_scope("tweet.read users.read tweet.read tweet.read").scopes();
    assert_eq!(scopes.len(), 2);
    assert!(scopes.contains("tweet.read"));
    assert!(scopes.contains("users.read"));
}

#[test]
fn scopes_twice_are_the_same_set() {
    let token = token_with_scope("tweet.read users.read offline.access");
    let first = token.scopes();
    let second = token.scopes();
    assert_eq!(first.len(), 3);
    assert_eq!(second.len(), 3);
    for scope in ["tweet.read", "users.read", "offline.access"] {
        assert!(first.contains(scope));
        assert!(second.contains(scope));
    }
    assert_eq!(token.scope, "tweet.read users.read offline.access");
}

#[test]
fn scopes_do_not_depend_on_the_spacing() {
    let spaced = [
        "tweet.read users.read",
        "tweet.read  users.read",
        "tweet.read\tusers.read",
        " tweet.read \t\t users.read\n",
        "users.read\r\ntweet.read",
    ];
    for scope in spaced {
        let scopes = token_with_scope(scope).scopes();
        assert_eq!(scopes.len(), 2, "{:?}", scope);
        assert!(scopes.contains("tweet.read"), "{:?}", scope);
        assert!(scopes.contains("users.read"), "{:?}", scope);
    }
}

#[test]
fn default_required_scopes_are_the_four() {
    let required = default_required_x_oauth_scopes();
    assert_eq!(required.len(), 4);
    assert!(required.contains("tweet.read"));
    assert!(required.contains("users.read"));
    assert!(required.contains("offline.access"));
    assert!(required.contains("tweet.write"));
}

#[test]
fn a_token_is_not_held_to_the_default_required_scopes() {
    let token = token_with_scope("tweet.read");
    let scopes = token.scopes();
    assert_eq!(scopes.len(), 1);
    assert!(!scopes.contains("tweet.write"));
}
