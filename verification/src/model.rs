//! Plain data carried between the polling engine, the handshake and their
//! callers. These mirror the wire payloads the service sends; decoding the
//! wire format itself happens outside the library, which only ever sees the
//! decoded values.

use vstd::prelude::*;

verus! {

/// Name of the in-process event on which a redirect URL is delivered when the
/// operating system relays the authorization redirect to a running instance.
pub const AUTH_REDIRECT_EVENT: &'static str = "auth_redirect";

/// Payload of the redirect-delivery event: the raw redirect URL.
pub struct AuthRedirectEventPayload {
    pub url: String,
}

/// Response of a resource lookup that carries the canonical browser URL of
/// the resource.
pub struct SomeGithubResponse {
    pub html_url: String,
}

/// What a notification is about.
pub struct Subject {
    pub title: String,
    pub url: String,
    pub latest_comment_url: Option<String>,
    pub kind: String,
}

/// Owner of a repository, reduced to what the presentation layer shows.
pub struct Owner {
    pub avatar_url: String,
}

/// Repository a notification belongs to.
pub struct Repository {
    pub id: i32,
    pub name: String,
    pub full_name: String,
    pub description: Option<String>,
    pub owner: Owner,
}

/// One notification thread, immutable once decoded from a response.
pub struct NotificationThread {
    pub id: String,
    pub repository: Repository,
    pub subject: Subject,
    pub reason: String,
    pub unread: bool,
    pub updated_at: Option<String>,
    pub last_read_at: Option<String>,
    pub url: String,
    pub subscription_url: String,
}

/// The authenticated account, as returned by the account endpoint.
pub struct User {
    pub id: i32,
    pub login: String,
}

/// Credential returned by the token endpoint. The library hands it to the
/// caller and never persists it.
pub struct TokenResponse {
    pub access_token: String,
    pub token_type: String,
    pub expires_in: Option<u64>,
    pub scope: Option<String>,
}

} // verus!
