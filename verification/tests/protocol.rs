use server_session::protocol::{begin, expects, issues, reconcile, transition};
use server_session::{
    Action, CookieChange, Directive, Entries, Event, Phase, Session, SessionStatus, StorageError,
};
use std::time::Duration;

const TTL: Duration = Duration::from_secs(3600);

fn entries_of(pairs: &[(&str, &str)]) -> Entries {
    let mut entries = Entries::new();
    for (key, value) in pairs {
        entries.insert(key.to_string(), value.to_string());
    }
    entries
}

fn pairs_of(entries: Entries) -> Vec<(String, String)> {
    let mut pairs = entries.into_pairs();
    pairs.sort();
    pairs
}

fn owned(pairs: &[(&str, &str)]) -> Vec<(String, String)> {
    pairs.iter().map(|(k, v)| (k.to_string(), v.to_string())).collect()
}

fn session_with(status: SessionStatus) -> Session {
    let mut session = Session::new(entries_of(&[("role", "guest")]));
    match status {
        SessionStatus::Unchanged => {}
        SessionStatus::Changed => session.set("role", "admin"),
        SessionStatus::Renewed => session.renew(),
        SessionStatus::Purged => session.purge(),
    }
    assert_eq!(session.status(), status);
    session
}

fn down() -> StorageError {
    StorageError::new("backend unreachable".to_string())
}

fn fresh() -> Option<String> {
    Some("XYZ".to_string())
}

fn assert_respond(out: Option<(Phase, Directive)>) {
    let (phase, directive) = out.expect("a step");
    assert!(matches!(phase, Phase::Closed));
    assert!(matches!(directive.cookie, CookieChange::Keep));
    assert!(matches!(directive.action, Action::Respond));
}

fn assert_fail(out: Option<(Phase, Directive)>, message: &str) {
    let (phase, directive) = out.expect("a step");
    assert!(matches!(phase, Phase::Closed));
    assert!(matches!(directive.cookie, CookieChange::Keep));
    match directive.action {
        Action::Fail { error } => assert_eq!(error.message(), message),
        other => panic!("expected Fail, got {:?}", other),
    }
}

fn assert_issue(out: Option<(Phase, Directive)>, id: &str, pairs: &[(&str, &str)]) {
    let (phase, directive) = out.expect("a step");
    assert!(matches!(phase, Phase::Updating));
    match directive.cookie {
        CookieChange::Assign { id: set } => assert_eq!(set, id),
        other => panic!("expected Assign, got {:?}", other),
    }
    match directive.action {
        Action::Update { id: written, entries, ttl } => {
            assert_eq!(written, id);
            assert_eq!(pairs_of(entries), owned(pairs));
            assert_eq!(ttl, TTL);
        }
        other => panic!("expected Update, got {:?}", other),
    }
}

#[test]
fn storage_error_keeps_its_message() {
    assert_eq!(down().message(), "backend unreachable");
}

#[test]
fn begin_with_cookie_loads_its_entries() {
    let (phase, directive) = begin(Some("ABC".to_string()));
    match phase {
        Phase::Loading { id } => assert_eq!(id, "ABC"),
        other => panic!("expected Loading, got {:?}", other),
    }
    assert!(matches!(directive.cookie, CookieChange::Keep));
    match directive.action {
        Action::Load { id } => assert_eq!(id, "ABC"),
        other => panic!("expected Load, got {:?}", other),
    }
}

#[test]
fn begin_without_cookie_hands_out_an_empty_session() {
    let (phase, directive) = begin(None);
    assert!(matches!(phase, Phase::Handling { prior: None }));
    assert!(matches!(directive.cookie, CookieChange::Keep));
    match directive.action {
        Action::Handle { session } => {
            assert_eq!(session.status(), SessionStatus::Unchanged);
            assert!(session.into_entries().into_pairs().is_empty());
        }
        other => panic!("expected Handle, got {:?}", other),
    }
}

#[test]
fn loaded_entries_go_to_the_handler() {
    let phase = Phase::Loading { id: "ABC".to_string() };
    let event = Event::Loaded { result: Ok(entries_of(&[("role", "guest")])) };
    let (phase, directive) = transition(TTL, phase, event, None).expect("a step");
    match phase {
        Phase::Handling { prior } => assert_eq!(prior.as_deref(), Some("ABC")),
        other => panic!("expected Handling, got {:?}", other),
    }
    assert!(matches!(directive.cookie, CookieChange::Keep));
    match directive.action {
        Action::Handle { session } => {
            assert_eq!(session.status(), SessionStatus::Unchanged);
            assert_eq!(pairs_of(session.into_entries()), owned(&[("role", "guest")]));
        }
        other => panic!("expected Handle, got {:?}", other),
    }
}

#[test]
fn unknown_identifier_gives_an_empty_session() {
    let phase = Phase::Loading { id: "STALE".to_string() };
    let event = Event::Loaded { result: Ok(Entries::new()) };
    let (phase, directive) = transition(TTL, phase, event, None).expect("a step");
    match phase {
        Phase::Handling { prior } => assert_eq!(prior.as_deref(), Some("STALE")),
        other => panic!("expected Handling, got {:?}", other),
    }
    match directive.action {
        Action::Handle { session } => {
            assert_eq!(session.status(), SessionStatus::Unchanged);
            assert!(session.into_entries().into_pairs().is_empty());
        }
        other => panic!("expected Handle, got {:?}", other),
    }
}

#[test]
fn failed_load_fails_the_request() {
    let phase = Phase::Loading { id: "ABC".to_string() };
    let event = Event::Loaded { result: Err(down()) };
    assert_fail(transition(TTL, phase, event, fresh()), "backend unreachable");
}

#[test]
fn unchanged_with_prior_does_nothing() {
    let out = reconcile(
        TTL,
        Some("ABC".to_string()),
        session_with(SessionStatus::Unchanged),
        fresh(),
    );
    assert_respond(out);
}

#[test]
fn unchanged_without_prior_does_nothing() {
    assert_respond(reconcile(TTL, None, Session::default(), None));
}

#[test]
fn changed_with_prior_writes_under_the_same_identifier() {
    let out = reconcile(TTL, Some("ABC".to_string()), session_with(SessionStatus::Changed), None);
    let (phase, directive) = out.expect("a step");
    assert!(matches!(phase, Phase::Updating));
    assert!(matches!(directive.cookie, CookieChange::Keep));
    match directive.action {
        Action::Update { id, entries, ttl } => {
            assert_eq!(id, "ABC");
            assert_eq!(pairs_of(entries), owned(&[("role", "admin")]));
            assert_eq!(ttl, TTL);
        }
        other => panic!("expected Update, got {:?}", other),
    }
}

#[test]
fn changed_without_prior_issues_an_identifier() {
    let out = reconcile(TTL, None, session_with(SessionStatus::Changed), fresh());
    assert_issue(out, "XYZ", &[("role", "admin")]);
}

#[test]
fn renewed_with_prior_removes_the_old_record_first() {
    let out = reconcile(TTL, Some("ABC".to_string()), session_with(SessionStatus::Renewed), fresh());
    let (phase, directive) = out.expect("a step");
    assert!(matches!(directive.cookie, CookieChange::Keep));
    match directive.action {
        Action::Remove { id } => assert_eq!(id, "ABC"),
        other => panic!("expected Remove, got {:?}", other),
    }
    match phase {
        Phase::Removing { rotate: Some(entries) } => {
            assert_eq!(pairs_of(entries), owned(&[("role", "guest")]))
        }
        other => panic!("expected Removing with entries, got {:?}", other),
    }
}

#[test]
fn renewed_without_prior_issues_an_identifier() {
    let out = reconcile(TTL, None, session_with(SessionStatus::Renewed), fresh());
    assert_issue(out, "XYZ", &[("role", "guest")]);
}

#[test]
fn purged_with_prior_removes_the_record() {
    let out = reconcile(TTL, Some("ABC".to_string()), session_with(SessionStatus::Purged), None);
    let (phase, directive) = out.expect("a step");
    assert!(matches!(phase, Phase::Removing { rotate: None }));
    assert!(matches!(directive.cookie, CookieChange::Keep));
    match directive.action {
        Action::Remove { id } => assert_eq!(id, "ABC"),
        other => panic!("expected Remove, got {:?}", other),
    }
}

#[test]
fn purged_without_prior_does_nothing() {
    assert_respond(reconcile(TTL, None, session_with(SessionStatus::Purged), fresh()));
}

#[test]
fn issuing_without_an_identifier_is_no_step() {
    assert!(reconcile(TTL, None, session_with(SessionStatus::Changed), None).is_none());
    assert!(reconcile(TTL, None, session_with(SessionStatus::Renewed), None).is_none());
    let phase = Phase::Removing { rotate: Some(Entries::new()) };
    let event = Event::Stored { outcome: Ok(()) };
    assert!(transition(TTL, phase, event, None).is_none());
}

#[test]
fn handled_event_follows_the_table() {
    let phase = Phase::Handling { prior: None };
    let event = Event::Handled { session: session_with(SessionStatus::Changed) };
    assert_issue(transition(TTL, phase, event, fresh()), "XYZ", &[("role", "admin")]);
}

#[test]
fn removal_in_a_rotation_is_followed_by_cookie_and_write() {
    let phase = Phase::Removing { rotate: Some(entries_of(&[("role", "admin")])) };
    let event = Event::Stored { outcome: Ok(()) };
    assert_issue(transition(TTL, phase, event, fresh()), "XYZ", &[("role", "admin")]);
}

#[test]
fn removal_in_a_purge_is_followed_by_the_cookie_removal() {
    let phase = Phase::Removing { rotate: None };
    let event = Event::Stored { outcome: Ok(()) };
    let (phase, directive) = transition(TTL, phase, event, fresh()).expect("a step");
    assert!(matches!(phase, Phase::Closed));
    assert!(matches!(directive.cookie, CookieChange::Remove));
    assert!(matches!(directive.action, Action::Respond));
}

#[test]
fn failed_removal_fails_the_request() {
    let rotation = Phase::Removing { rotate: Some(entries_of(&[("role", "admin")])) };
    let event = Event::Stored { outcome: Err(down()) };
    assert_fail(transition(TTL, rotation, event, fresh()), "backend unreachable");
    let purge = Phase::Removing { rotate: None };
    let event = Event::Stored { outcome: Err(StorageError::new("write failed".to_string())) };
    assert_fail(transition(TTL, purge, event, None), "write failed");
}

#[test]
fn successful_write_ends_the_request() {
    let event = Event::Stored { outcome: Ok(()) };
    assert_respond(transition(TTL, Phase::Updating, event, None));
}

#[test]
fn failed_write_fails_the_request() {
    let event = Event::Stored { outcome: Err(StorageError::new("cannot encode".to_string())) };
    assert_fail(transition(TTL, Phase::Updating, event, None), "cannot encode");
}

#[test]
fn unexpected_events_are_no_step() {
    let stored = || Event::Stored { outcome: Ok(()) };
    let loaded = || Event::Loaded { result: Ok(Entries::new()) };
    let handled = || Event::Handled { session: session_with(SessionStatus::Changed) };
    let loading = || Phase::Loading { id: "ABC".to_string() };
    let handling = || Phase::Handling { prior: Some("ABC".to_string()) };
    let removing = || Phase::Removing { rotate: None };

    assert!(transition(TTL, loading(), stored(), fresh()).is_none());
    assert!(transition(TTL, loading(), handled(), fresh()).is_none());
    assert!(transition(TTL, handling(), loaded(), fresh()).is_none());
    assert!(transition(TTL, handling(), stored(), fresh()).is_none());
    assert!(transition(TTL, removing(), loaded(), fresh()).is_none());
    assert!(transition(TTL, removing(), handled(), fresh()).is_none());
    assert!(transition(TTL, Phase::Updating, loaded(), fresh()).is_none());
    assert!(transition(TTL, Phase::Updating, handled(), fresh()).is_none());
}

#[test]
fn a_closed_request_takes_no_event() {
    let stored = Event::Stored { outcome: Ok(()) };
    let loaded = Event::Loaded { result: Ok(Entries::new()) };
    let handled = Event::Handled { session: Session::default() };
    assert!(transition(TTL, Phase::Closed, stored, fresh()).is_none());
    assert!(transition(TTL, Phase::Closed, loaded, fresh()).is_none());
    assert!(transition(TTL, Phase::Closed, handled, fresh()).is_none());
}

#[test]
fn expects_pairs_phases_with_their_events() {
    let stored = Event::Stored { outcome: Ok(()) };
    let loaded = Event::Loaded { result: Err(down()) };
    let handled = Event::Handled { session: Session::default() };
    let loading = Phase::Loading { id: "ABC".to_string() };
    let handling = Phase::Handling { prior: None };
    let removing = Phase::Removing { rotate: None };

    assert!(expects(&loading, &loaded));
    assert!(!expects(&loading, &handled));
    assert!(!expects(&loading, &stored));
    assert!(expects(&handling, &handled));
    assert!(!expects(&handling, &loaded));
    assert!(!expects(&handling, &stored));
    assert!(expects(&removing, &stored));
    assert!(!expects(&removing, &loaded));
    assert!(expects(&Phase::Updating, &stored));
    assert!(!expects(&Phase::Updating, &handled));
    assert!(!expects(&Phase::Closed, &stored));
    assert!(!expects(&Phase::Closed, &loaded));
    assert!(!expects(&Phase::Closed, &handled));
}

#[test]
fn issues_tells_when_an_identifier_is_needed() {
    let handled = |status| Event::Handled { session: session_with(status) };
    let anonymous = Phase::Handling { prior: None };
    let known = Phase::Handling { prior: Some("ABC".to_string()) };

    assert!(!issues(&anonymous, &handled(SessionStatus::Unchanged)));
    assert!(issues(&anonymous, &handled(SessionStatus::Changed)));
    assert!(issues(&anonymous, &handled(SessionStatus::Renewed)));
    assert!(!issues(&anonymous, &handled(SessionStatus::Purged)));
    assert!(!issues(&known, &handled(SessionStatus::Unchanged)));
    assert!(!issues(&known, &handled(SessionStatus::Changed)));
    assert!(!issues(&known, &handled(SessionStatus::Renewed)));
    assert!(!issues(&known, &handled(SessionStatus::Purged)));

    let ok = Event::Stored { outcome: Ok(()) };
    let failed = Event::Stored { outcome: Err(down()) };
    let rotation = Phase::Removing { rotate: Some(Entries::new()) };
    let purge = Phase::Removing { rotate: None };
    assert!(issues(&rotation, &ok));
    assert!(!issues(&rotation, &failed));
    assert!(!issues(&purge, &ok));
    assert!(!issues(&Phase::Updating, &ok));
    assert!(!issues(&Phase::Closed, &ok));
    assert!(!issues(&Phase::Loading { id: "ABC".to_string() }, &ok));
}
