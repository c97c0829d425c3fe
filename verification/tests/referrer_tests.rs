use github_notifier::link::{build_tracked_link, subject_target_url};
use github_notifier::model::Subject;
use github_notifier::referrer::generate_notification_referrer_id;

#[test]
fn encodes_the_documented_tracking_value() {
    assert_eq!(
        generate_notification_referrer_id("12345", 2845072),
        "NT_kwDOACtpkLMxMjM0NToyODQ1MDcy"
    );
}

#[test]
fn tracking_value_matches_direct_encoding() {
    let id = "987654";
    let user_id: i32 = 42;
    let mut payload: Vec<u8> = vec![0x93, 0x00, 0xCE, 0x00, 0x2B, 0x69, 0x90, 0xB3];
    payload.extend_from_slice(id.as_bytes());
    payload.push(b':');
    payload.extend_from_slice(user_id.to_string().as_bytes());
    let expected = format!(
        "NT_{}",
        base64::Engine::encode(&base64::engine::general_purpose::URL_SAFE_NO_PAD, &payload)
    );
    assert_eq!(generate_notification_referrer_id(id, user_id), expected);
}

#[test]
fn negative_user_id_keeps_its_sign() {
    let mut payload: Vec<u8> = vec![0x93, 0x00, 0xCE, 0x00, 0x2B, 0x69, 0x90, 0xB3];
    payload.extend_from_slice(b"7:-12");
    let expected = format!(
        "NT_{}",
        base64::Engine::encode(&base64::engine::general_purpose::URL_SAFE_NO_PAD, &payload)
    );
    assert_eq!(generate_notification_referrer_id("7", -12), expected);
}

#[test]
fn tracked_link_appends_the_parameter() {
    let link = build_tracked_link("https://github.com/octo/repo/issues/5", "12345", 2845072);
    assert_eq!(
        link.as_deref(),
        Some(
            "https://github.com/octo/repo/issues/5?notification_referrer_id=NT_kwDOACtpkLMxMjM0NToyODQ1MDcy"
        )
    );
}

#[test]
fn unparsable_base_yields_no_link() {
    assert_eq!(build_tracked_link("not a url", "1", 1), None);
}

fn subject(latest: Option<&str>) -> Subject {
    Subject {
        title: "A title".to_string(),
        url: "https://api.example.net/subject".to_string(),
        latest_comment_url: latest.map(|s| s.to_string()),
        kind: "Issue".to_string(),
    }
}

#[test]
fn prefers_latest_activity_reference() {
    let s = subject(Some("https://api.example.net/comment"));
    assert_eq!(subject_target_url(&s), "https://api.example.net/comment");
}

#[test]
fn falls_back_to_subject_reference() {
    let s = subject(None);
    assert_eq!(subject_target_url(&s), "https://api.example.net/subject");
}
