use shortener::error::ApiError;
use shortener::shorten::{
    InsertOutcome, ShortenAction, ShortenEvent, ShortenSession, MAX_COLLISION_RETRIES,
};

fn started(url: &str) -> ShortenSession {
    let (session, action) = ShortenSession::start(url.to_string(), true);
    match action {
        ShortenAction::FindCodeByUrl { url: u } => assert_eq!(u, url),
        _ => panic!("expected a lookup first"),
    }
    session
}

fn inserted_code(action: &ShortenAction) -> String {
    match action {
        ShortenAction::Insert { code, .. } => code.clone(),
        _ => panic!("expected an insert"),
    }
}

#[test]
fn new_url_is_inserted_and_cached() {
    let mut s = started("https://example.com");
    let a = s.step(ShortenEvent::Lookup(Ok(None)), "aZ3kT9".to_string());
    match &a {
        ShortenAction::Insert { code, url } => {
            assert_eq!(code, "aZ3kT9");
            assert_eq!(url, "https://example.com");
        }
        _ => panic!("expected an insert"),
    }
    assert!(s.accepts(&ShortenEvent::Insert(InsertOutcome::Inserted)));
    assert!(!s.accepts(&ShortenEvent::Lookup(Ok(None))));
    let a = s.step(ShortenEvent::Insert(InsertOutcome::Inserted), "unused".to_string());
    match a {
        ShortenAction::Finish { result: Ok(done), cache: Some(w) } => {
            assert_eq!(done.code, "aZ3kT9");
            assert!(done.created);
            assert_eq!(done.status(), 201);
            assert_eq!(w.key, "short:aZ3kT9");
            assert_eq!(w.value, "https://example.com");
            assert_eq!(w.ttl_secs, 3600);
        }
        _ => panic!("expected a created code"),
    }
    assert!(!s.accepts(&ShortenEvent::Insert(InsertOutcome::Inserted)));
}

#[test]
fn existing_url_returns_its_code() {
    let mut s = started("https://example.com");
    let a = s.step(ShortenEvent::Lookup(Ok(Some("abc123".to_string()))), "zzzzzz".to_string());
    match a {
        ShortenAction::Finish { result: Ok(done), cache: Some(w) } => {
            assert_eq!(done.code, "abc123");
            assert!(!done.created);
            assert_eq!(done.status(), 200);
            assert_eq!(w.key, "short:abc123");
            assert_eq!(w.value, "https://example.com");
        }
        _ => panic!("expected the existing code"),
    }
}

#[test]
fn same_url_twice_gives_same_code() {
    // First request creates the code; a store then maps it to the URL.
    let mut first = started("https://example.com/a");
    let a = first.advance(ShortenEvent::Lookup(Ok(None)));
    let code = inserted_code(&a);
    let a = first.advance(ShortenEvent::Insert(InsertOutcome::Inserted));
    let created = match a {
        ShortenAction::Finish { result: Ok(done), .. } => done,
        _ => panic!("expected success"),
    };
    assert!(created.created);
    // Second request finds it.
    let mut second = started("https://example.com/a");
    let a = second.advance(ShortenEvent::Lookup(Ok(Some(code.clone()))));
    match a {
        ShortenAction::Finish { result: Ok(done), .. } => {
            assert_eq!(done.code, created.code);
            assert!(!done.created);
        }
        _ => panic!("expected the existing code"),
    }
}

#[test]
fn collisions_are_retried_with_fresh_codes() {
    let mut s = started("https://example.com");
    let mut a = s.step(ShortenEvent::Lookup(Ok(None)), "code00".to_string());
    let mut inserts = 1;
    for k in 1..3 {
        assert_eq!(inserted_code(&a), format!("code0{}", k - 1));
        a = s.step(ShortenEvent::Insert(InsertOutcome::Collision), format!("code0{}", k));
        inserts += 1;
    }
    assert_eq!(inserted_code(&a), "code02");
    assert_eq!(inserts, 3);
    match s.step(ShortenEvent::Insert(InsertOutcome::Inserted), "x".to_string()) {
        ShortenAction::Finish { result: Ok(done), .. } => {
            assert_eq!(done.code, "code02");
            assert!(done.created);
        }
        _ => panic!("expected success after two collisions"),
    }
}

#[test]
fn collisions_exhaust_after_the_bound() {
    let mut s = started("https://example.com");
    let mut a = s.advance(ShortenEvent::Lookup(Ok(None)));
    let mut attempts = 0;
    loop {
        match a {
            ShortenAction::Insert { code, .. } => {
                assert_eq!(code.len(), 6);
                attempts += 1;
                a = s.advance(ShortenEvent::Insert(InsertOutcome::Collision));
            }
            ShortenAction::Finish { result, cache } => {
                assert!(matches!(result, Err(ApiError::TooManyCollisions)));
                assert!(cache.is_none());
                break;
            }
            _ => panic!("unexpected action"),
        }
    }
    assert_eq!(attempts, MAX_COLLISION_RETRIES);
    assert_eq!(MAX_COLLISION_RETRIES, 5);
}

#[test]
fn store_failure_on_insert_aborts() {
    let mut s = started("https://example.com");
    s.step(ShortenEvent::Lookup(Ok(None)), "aaaaaa".to_string());
    match s.step(ShortenEvent::Insert(InsertOutcome::Failed("down".to_string())), "b".to_string()) {
        ShortenAction::Finish { result: Err(ApiError::Database(m)), cache: None } => {
            assert_eq!(m, "down")
        }
        _ => panic!("expected a database error"),
    }
}

#[test]
fn store_failure_on_lookup_aborts() {
    let mut s = started("https://example.com");
    match s.step(ShortenEvent::Lookup(Err("timeout".to_string())), "b".to_string()) {
        ShortenAction::Finish { result: Err(ApiError::Database(m)), cache: None } => {
            assert_eq!(m, "timeout")
        }
        _ => panic!("expected a database error"),
    }
}

#[test]
fn invalid_input_never_reaches_the_store() {
    let (_, a) = ShortenSession::start("ftp://example.com".to_string(), true);
    match a {
        ShortenAction::Finish { result: Err(ApiError::UnsupportedScheme { scheme }), cache: None } => {
            assert_eq!(scheme, "ftp")
        }
        _ => panic!("expected a rejected scheme"),
    }
    let (_, a) = ShortenSession::start("nonsense".to_string(), true);
    assert!(matches!(
        a,
        ShortenAction::Finish { result: Err(ApiError::InvalidUrl(_)), cache: None }
    ));
}

#[test]
fn rate_limited_shorten_is_refused_without_side_effects() {
    let (s, a) = ShortenSession::start("https://example.com".to_string(), false);
    match a {
        ShortenAction::Finish { result: Err(e), cache: None } => {
            assert!(matches!(e, ApiError::RateLimited));
            assert_eq!(e.response_parts().0, 429);
        }
        _ => panic!("expected a refusal"),
    }
    assert!(!s.accepts(&ShortenEvent::Lookup(Ok(None))));
    assert!(!s.accepts(&ShortenEvent::Insert(InsertOutcome::Inserted)));
}
