use tapo_gateway::server::auth::{authorize, login, LoginData};
use tapo_gateway::server::sessions::Sessions;
use tapo_gateway::server::snapshot::parse_snapshot;

#[test]
fn fresh_store_is_empty() {
    let s = Sessions::create(None).unwrap();
    assert_eq!(s.snapshot_json(), "{}");
}

#[test]
fn issued_token_is_31_alphanumeric_chars() {
    let mut s = Sessions::create(None).unwrap();
    let id = s.insert().unwrap();
    assert_eq!(id.len(), 31);
    assert!(id.chars().all(|c| c.is_ascii_alphanumeric()));
}

#[test]
fn two_issues_never_return_identical_tokens() {
    let mut s = Sessions::create(None).unwrap();
    let a = s.insert().unwrap();
    let b = s.insert().unwrap();
    assert_ne!(a, b);
}

#[test]
fn many_issues_all_distinct() {
    let mut s = Sessions::create(None).unwrap();
    let mut seen: Vec<String> = Vec::new();
    for _ in 0..50 {
        let id = s.insert().unwrap();
        assert!(!seen.contains(&id));
        seen.push(id);
    }
}

#[test]
fn issued_token_validates() {
    let mut s = Sessions::create(None).unwrap();
    let id = s.insert().unwrap();
    assert!(s.get(&id).is_some());
    assert!(s.get("notatoken").is_none());
}

#[test]
fn duplicate_insert_fails_closed() {
    let mut s = Sessions::create(None).unwrap();
    s.insert_token("abc".to_string()).unwrap();
    let before = s.snapshot_json();
    let err = s.insert_token("abc".to_string()).unwrap_err();
    assert_eq!(err, "A session already exists with the provided ID!");
    assert_eq!(s.snapshot_json(), before);
}

#[test]
fn snapshot_text_is_the_expected_json() {
    let mut s = Sessions::create(None).unwrap();
    s.insert_token("tokA".to_string()).unwrap();
    s.insert_token("tokB".to_string()).unwrap();
    assert_eq!(s.snapshot_json(), "{\"tokA\":{},\"tokB\":{}}");
}

#[test]
fn token_survives_restart_through_snapshot() {
    let mut s = Sessions::create(None).unwrap();
    let id = s.insert().unwrap();
    let snapshot = s.snapshot_json();
    // A later process starts from the same snapshot text.
    let restarted = Sessions::create(Some(&snapshot)).unwrap();
    assert!(restarted.get(&id).is_some());
    assert!(authorize(&restarted, &id).is_ok());
}

#[test]
fn parse_rejects_malformed_snapshots() {
    assert!(parse_snapshot("").is_none());
    assert!(parse_snapshot("{").is_none());
    assert!(parse_snapshot("[]").is_none());
    assert!(parse_snapshot("{\"a\":{}").is_none());
    assert!(parse_snapshot("{\"a\":{},}").is_none());
    assert!(parse_snapshot("{\"\":{}}").is_none());
    assert!(parse_snapshot("{\"a\":{},\"a\":{}}").is_none());
    assert!(parse_snapshot("{\"a!\":{}}").is_none());
}

#[test]
fn parse_accepts_written_snapshots() {
    let v = parse_snapshot("{}").unwrap();
    assert!(v.is_empty());
    let v = parse_snapshot("{\"abc\":{}}").unwrap();
    assert_eq!(v, vec!["abc".to_string()]);
    let v = parse_snapshot("{\"abc\":{},\"xYz9\":{}}").unwrap();
    assert_eq!(v, vec!["abc".to_string(), "xYz9".to_string()]);
}

#[test]
fn create_reports_a_parse_failure() {
    match Sessions::create(Some("not json")) {
        Ok(_) => panic!("malformed snapshot was accepted"),
        Err(err) => assert_eq!(err, "Failed to parse sessions file"),
    }
}

#[test]
fn wrong_password_is_unauthorized_and_creates_no_token() {
    let mut s = Sessions::create(None).unwrap();
    let before = s.snapshot_json();
    let data = LoginData { password: "wrong".to_string() };
    let err = login("right", &data, &mut s).unwrap_err();
    assert_eq!(err.code(), 403);
    assert_eq!(err.message().as_str(), "Invalid credentials provided");
    assert_eq!(s.snapshot_json(), before);
}

#[test]
fn right_password_issues_a_working_token() {
    let mut s = Sessions::create(None).unwrap();
    let data = LoginData { password: "right".to_string() };
    let id = login("right", &data, &mut s).unwrap();
    assert!(authorize(&s, &id).is_ok());
}

#[test]
fn unknown_bearer_token_is_forbidden() {
    let s = Sessions::create(None).unwrap();
    let err = authorize(&s, "nope").unwrap_err();
    assert_eq!(err.code(), 403);
    assert_eq!(err.message().as_str(), "Invalid bearer token");
}
