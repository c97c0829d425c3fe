//! Turning a notification thread into a trackable browser link: choosing
//! which of the thread's resource references to resolve, and appending the
//! tracking parameter to the resolved browser URL.
//!
//! Resolving a resource reference to its browser URL takes a network round
//! trip, so the caller performs it and hands the result in.

use vstd::prelude::*;

use crate::model::Subject;
use crate::referrer::{generate_notification_referrer_id, referrer_id_chars};

verus! {

/// What `url::Url::parse_with_params` yields for a base URL and one extra
/// query pair: the URL re-serialized with the pair appended to its query,
/// or nothing exactly when the base does not parse as an absolute URL.
pub uninterp spec fn with_query_param(base: Seq<char>, key: Seq<char>, value: Seq<char>) -> Option<
    Seq<char>,
>;

/// Relies on `url::Url::parse_with_params`: it parses `base`, appends the
/// pair to the query (percent-encoding it), and fails exactly when `base`
/// is not a valid absolute URL.
#[verifier::external_body]
fn parse_with_param_raw(base: &str, key: &str, value: &str) -> (r: Option<String>)
    ensures
        r is Some <==> with_query_param(base@, key@, value@) is Some,
        r matches Some(u) ==> with_query_param(base@, key@, value@) == Some(u@),
{
    url::Url::parse_with_params(base, &[(key, value)]).ok().map(String::from)
}

/// The resource reference worth resolving for a thread's subject: the
/// latest-activity reference when there is one, else the subject itself.
pub open spec fn subject_target(subject: Subject) -> Seq<char> {
    match subject.latest_comment_url {
        Some(u) => u@,
        None => subject.url@,
    }
}

/// Picks the reference to resolve, exactly as `subject_target` describes.
pub fn subject_target_url(subject: &Subject) -> (r: &String)
    ensures
        r@ == subject_target(*subject),
{
    match &subject.latest_comment_url {
        Some(u) => u,
        None => &subject.url,
    }
}

/// The link a tracked notification opens: the resolved browser URL with the
/// tracking parameter appended, or nothing exactly when that URL does not
/// parse — the caller then falls back to the generic listing URL.
pub open spec fn tracked_link(
    html_url: Seq<char>,
    notification_id: Seq<char>,
    user_id: int,
) -> Option<Seq<char>> {
    with_query_param(
        html_url,
        "notification_referrer_id"@,
        referrer_id_chars(notification_id, user_id),
    )
}

/// Appends the tracking parameter for this thread and user to the resolved
/// browser URL, exactly as `tracked_link` describes.
pub fn build_tracked_link(html_url: &str, notification_id: &str, user_id: i32) -> (r: Option<
    String,
>)
    ensures
        r is Some <==> tracked_link(html_url@, notification_id@, user_id as int) is Some,
        r matches Some(u) ==> tracked_link(html_url@, notification_id@, user_id as int) == Some(
            u@,
        ),
{
    let referrer_id = generate_notification_referrer_id(notification_id, user_id);
    parse_with_param_raw(html_url, "notification_referrer_id", referrer_id.as_str())
}

} // verus!
