use github_notifier::client::{interpret_response, FetchError};
use github_notifier::engine::{FetchOutcome, PollEvent, PollState, DEFAULT_POLL_INTERVAL_SECS};
use github_notifier::model::{NotificationThread, Owner, Repository, Subject};

fn thread(id: &str, title: &str) -> NotificationThread {
    NotificationThread {
        id: id.to_string(),
        repository: Repository {
            id: 1,
            name: "repo".to_string(),
            full_name: "octo/repo".to_string(),
            description: None,
            owner: Owner { avatar_url: "https://avatars.example.net/u/1".to_string() },
        },
        subject: Subject {
            title: title.to_string(),
            url: "https://api.example.net/subject".to_string(),
            latest_comment_url: None,
            kind: "Issue".to_string(),
        },
        reason: "subscribed".to_string(),
        unread: true,
        updated_at: None,
        last_read_at: None,
        url: "https://api.example.net/thread".to_string(),
        subscription_url: "https://api.example.net/subscription".to_string(),
    }
}

fn no_change(validator: Option<&str>, interval: Option<u64>) -> FetchOutcome {
    FetchOutcome::Response {
        threads: None,
        recommended_interval_secs: interval,
        validator: validator.map(|v| v.to_string()),
    }
}

#[test]
fn fresh_engine_has_the_defaults() {
    let s = PollState::new();
    assert_eq!(s.interval_secs, DEFAULT_POLL_INTERVAL_SECS);
    assert_eq!(s.interval_secs, 60);
    assert!(s.last_validator.is_none());
}

#[test]
fn recommended_interval_governs_the_next_sleep() {
    let mut s = PollState::new();
    assert_eq!(s.interval_secs, 60);
    let e = s.step(no_change(None, Some(30)));
    assert!(matches!(e, PollEvent::Unchanged));
    assert_eq!(s.interval_secs, 30);
    // Without a new recommendation the adopted interval stays.
    s.step(no_change(None, None));
    assert_eq!(s.interval_secs, 30);
}

#[test]
fn unchanged_cycles_keep_the_validator() {
    let mut s = PollState::new();
    s.step(no_change(Some("Thu, 25 Oct 2012 15:16:27 GMT"), None));
    assert_eq!(s.last_validator.as_deref(), Some("Thu, 25 Oct 2012 15:16:27 GMT"));
    let e1 = s.step(no_change(None, None));
    let e2 = s.step(no_change(None, None));
    assert!(matches!(e1, PollEvent::Unchanged));
    assert!(matches!(e2, PollEvent::Unchanged));
    assert_eq!(s.last_validator.as_deref(), Some("Thu, 25 Oct 2012 15:16:27 GMT"));
}

#[test]
fn changed_cycle_emits_the_list_and_renews_the_validator() {
    let mut s = PollState::new();
    s.step(no_change(Some("old-validator"), None));
    let outcome = FetchOutcome::Response {
        threads: Some(vec![thread("1", "first")]),
        recommended_interval_secs: None,
        validator: Some("new-validator".to_string()),
    };
    match s.step(outcome) {
        PollEvent::Changed(ts) => {
            assert_eq!(ts.len(), 1);
            assert_eq!(ts[0].id, "1");
        }
        _ => panic!("a delivered list must be emitted"),
    }
    assert_eq!(s.last_validator.as_deref(), Some("new-validator"));
}

#[test]
fn transport_failure_is_fatal() {
    let mut s = PollState::new();
    let e = s.step(FetchOutcome::Transport(FetchError {
        message: "connection refused".to_string(),
    }));
    match e {
        PollEvent::Fatal(err) => assert_eq!(err.message, "connection refused"),
        _ => panic!("a transport failure must end the sequence"),
    }
    assert_eq!(s.interval_secs, 60);
}

#[test]
fn three_unchanged_then_one_changed_batch() {
    let mut s = PollState::new();
    assert_eq!(s.interval_secs, 60);
    let mut events: Vec<PollEvent> = Vec::new();
    for _ in 0..3 {
        let (threads, interval, validator) = interpret_response(304, None, None, None);
        events.push(s.step(FetchOutcome::Response {
            threads,
            recommended_interval_secs: interval,
            validator,
        }));
    }
    let body = Some(vec![thread("1", "first"), thread("2", "second")]);
    let (threads, interval, validator) = interpret_response(200, None, None, body);
    events.push(s.step(FetchOutcome::Response {
        threads,
        recommended_interval_secs: interval,
        validator,
    }));
    assert_eq!(events.len(), 4);
    assert!(matches!(events[0], PollEvent::Unchanged));
    assert!(matches!(events[1], PollEvent::Unchanged));
    assert!(matches!(events[2], PollEvent::Unchanged));
    match &events[3] {
        PollEvent::Changed(ts) => {
            assert_eq!(ts.len(), 2);
            assert_eq!(ts[0].id, "1");
            assert_eq!(ts[1].id, "2");
        }
        _ => panic!("the fourth cycle must deliver the two threads"),
    }
}

#[test]
fn interpretation_returns_the_list_only_on_full_data() {
    let body = Some(vec![thread("9", "t")]);
    let (threads, _, _) = interpret_response(200, None, None, body);
    assert_eq!(threads.map(|ts| ts.len()), Some(1));
    let (threads, _, _) = interpret_response(304, None, None, None);
    assert!(threads.is_none());
    // An application-level error yields no data; the loop goes on.
    let (threads, _, _) = interpret_response(502, None, None, None);
    assert!(threads.is_none());
}

#[test]
fn interpretation_parses_the_cadence_headers() {
    let (_, interval, validator) = interpret_response(
        304,
        Some("30".to_string()),
        Some("Thu, 25 Oct 2012 15:16:27 GMT".to_string()),
        None,
    );
    assert_eq!(interval, Some(30));
    assert_eq!(validator.as_deref(), Some("Thu, 25 Oct 2012 15:16:27 GMT"));
    let (_, interval, _) = interpret_response(304, Some("soon".to_string()), None, None);
    assert_eq!(interval, None);
}
