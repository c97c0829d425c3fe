//! The authorization handshake: building the authorization URL, judging the
//! redirect that comes back, and preparing the token-exchange request.
//!
//! The handshake itself performs no I/O. The caller opens the browser on the
//! URL that `begin` returns, waits for the redirect (or a timeout), hands the
//! raw redirect URL to `on_redirect`, and posts the body that
//! `token_request_body` renders to the token endpoint only when `on_redirect`
//! produced a request — so a state mismatch can never reach the endpoint.

use vstd::prelude::*;

use crate::crypto::{generate_csrf_token, generate_pkce_pair, pkce_pair_wf, PkcePair};
use crate::model::TokenResponse;
use crate::pct::{component_encoded, pct_encode};
use crate::query::query_param;

verus! {

/// Where and as whom to authorize. All endpoints are fixed per deployment.
pub struct HandshakeConfig {
    pub client_id: String,
    pub client_secret: String,
    pub authorize_endpoint: String,
    pub token_endpoint: String,
    pub redirect_uri: String,
    pub scope: String,
}

/// Why a handshake attempt failed. Every failure aborts the whole attempt;
/// the user may re-initiate, nothing retries by itself.
pub enum AuthError {
    /// The configuration carries no client id.
    MissingClientId,
    /// The loopback listener could not bind its port.
    BindFailed,
    /// The browser could not be launched on the authorization URL.
    BrowserLaunchFailed,
    /// No redirect arrived within the configured timeout.
    TimedOut,
    /// The redirect delivery channel closed before a redirect arrived.
    ChannelClosed,
    /// The redirect carries no `code` parameter.
    MissingCode,
    /// The redirect carries no `state` parameter.
    MissingState,
    /// The redirect's `state` differs from the token this attempt embedded.
    CsrfMismatch,
    /// The token endpoint answered outside the success range.
    ExchangeRejected(u16),
    /// The token endpoint's success answer carried no usable credential.
    MalformedTokenResponse,
    /// The token exchange failed at the transport level.
    ExchangeTransport,
}

/// How the redirect receiver can fail: it waits up to a configured timeout
/// and reports which of the two ends came first.
pub enum RedirectWaitError {
    TimedOut,
    ChannelClosed,
}

/// Everything a token exchange needs, produced only for a redirect that
/// passed the CSRF check.
pub struct TokenRequest {
    pub code: String,
    pub verifier: String,
    pub client_id: String,
    pub client_secret: String,
    pub redirect_uri: String,
    pub token_endpoint: String,
}

/// One handshake attempt: its configuration and its fresh secrets.
pub struct Handshake {
    pub config: HandshakeConfig,
    pub pkce: PkcePair,
    pub csrf_token: String,
}

/// The authorization URL: the endpoint followed by the assembled query, each
/// component percent-encoded.
pub open spec fn auth_url_chars(
    config: HandshakeConfig,
    challenge: Seq<char>,
    state: Seq<char>,
) -> Seq<char> {
    config.authorize_endpoint@ + "?response_type=code&client_id="@ + component_encoded(
        config.client_id@,
    ) + "&state="@ + component_encoded(state) + "&code_challenge="@ + component_encoded(challenge)
        + "&code_challenge_method=S256&redirect_uri="@ + component_encoded(config.redirect_uri@)
        + "&scope="@ + component_encoded(config.scope@)
}

/// What judging a redirect yields: the authorization code, or the exact
/// failure. The `state` is compared to the attempt's CSRF token; on any
/// mismatch the code is withheld.
pub open spec fn redirect_decision(csrf: Seq<char>, url: Seq<char>) -> Result<Seq<char>, AuthError> {
    match query_param(url, "code"@) {
        None => Err(AuthError::MissingCode),
        Some(code) => match query_param(url, "state"@) {
            None => Err(AuthError::MissingState),
            Some(state) => if state == csrf {
                Ok(code)
            } else {
                Err(AuthError::CsrfMismatch)
            },
        },
    }
}

/// The token-exchange form body for a request, each component
/// percent-encoded.
pub open spec fn token_body_chars(req: TokenRequest) -> Seq<char> {
    "grant_type=authorization_code&code="@ + component_encoded(req.code@) + "&redirect_uri="@
        + component_encoded(req.redirect_uri@) + "&client_id="@ + component_encoded(req.client_id@)
        + "&client_secret="@ + component_encoded(req.client_secret@) + "&code_verifier="@
        + component_encoded(req.verifier@)
}

fn append_encoded(out: &mut String, s: &str)
    ensures
        final(out)@ == old(out)@ + component_encoded(s@),
{
    let e = pct_encode(s);
    out.append(e.as_str());
}

/// Assembles the authorization URL, exactly as `auth_url_chars` describes.
/// Pure query-parameter assembly; no network effect.
pub fn build_authorization_url(config: &HandshakeConfig, challenge: &str, state: &str) -> (r:
    String)
    ensures
        r@ == auth_url_chars(*config, challenge@, state@),
{
    let mut u = config.authorize_endpoint.clone();
    u.append("?response_type=code&client_id=");
    append_encoded(&mut u, config.client_id.as_str());
    u.append("&state=");
    append_encoded(&mut u, state);
    u.append("&code_challenge=");
    append_encoded(&mut u, challenge);
    u.append("&code_challenge_method=S256&redirect_uri=");
    append_encoded(&mut u, config.redirect_uri.as_str());
    u.append("&scope=");
    append_encoded(&mut u, config.scope.as_str());
    proof {
        assert(u@ =~= auth_url_chars(*config, challenge@, state@));
    }
    u
}

impl Handshake {
    /// What every started attempt satisfies.
    pub open spec fn wf(self) -> bool {
        pkce_pair_wf(self.pkce) && self.csrf_token@.len() == 22
    }

    /// Starts a handshake attempt: generates the fresh PKCE pair and CSRF
    /// token and assembles the authorization URL for the caller to open in
    /// the browser. Fails exactly when the configuration has no client id.
    pub fn begin(config: HandshakeConfig) -> (r: Result<(Handshake, String), AuthError>)
        ensures
            match r {
                Ok((hs, url)) => config.client_id@.len() > 0 && hs.wf() && hs.config == config
                    && url@ == auth_url_chars(config, hs.pkce.challenge@, hs.csrf_token@),
                Err(e) => config.client_id@.len() == 0 && e == AuthError::MissingClientId,
            },
    {
        if config.client_id.as_str().is_empty() {
            return Err(AuthError::MissingClientId);
        }
        let pkce = generate_pkce_pair();
        let csrf_token = generate_csrf_token();
        let url = build_authorization_url(&config, pkce.challenge.as_str(), csrf_token.as_str());
        Ok((Handshake { config, pkce, csrf_token }, url))
    }

    /// Judges a redirect URL: extracts `code` and `state`, enforces the CSRF
    /// check, and only then releases a token request, exactly as
    /// `redirect_decision` describes.
    pub fn on_redirect(&self, redirect_url: &str) -> (r: Result<TokenRequest, AuthError>)
        ensures
            match redirect_decision(self.csrf_token@, redirect_url@) {
                Ok(code) => r matches Ok(req) && req.code@ == code && req.verifier@
                    == self.pkce.verifier@ && req.client_id@ == self.config.client_id@
                    && req.client_secret@ == self.config.client_secret@ && req.redirect_uri@
                    == self.config.redirect_uri@ && req.token_endpoint@
                    == self.config.token_endpoint@,
                Err(e) => r matches Err(e2) && e2 == e,
            },
    {
        let code = match crate::query::extract_query_param(redirect_url, "code") {
            Some(c) => c,
            None => {
                return Err(AuthError::MissingCode);
            },
        };
        let state = match crate::query::extract_query_param(redirect_url, "state") {
            Some(s) => s,
            None => {
                return Err(AuthError::MissingState);
            },
        };
        if !(state == self.csrf_token) {
            return Err(AuthError::CsrfMismatch);
        }
        Ok(
            TokenRequest {
                code,
                verifier: self.pkce.verifier.clone(),
                client_id: self.config.client_id.clone(),
                client_secret: self.config.client_secret.clone(),
                redirect_uri: self.config.redirect_uri.clone(),
                token_endpoint: self.config.token_endpoint.clone(),
            },
        )
    }
}

/// Maps a redirect receiver failure to the handshake failure it aborts the
/// attempt with: a timeout stays a timeout, a closed channel stays a closed
/// channel.
pub fn redirect_failure(e: RedirectWaitError) -> (r: AuthError)
    ensures
        e is TimedOut ==> r == AuthError::TimedOut,
        e is ChannelClosed ==> r == AuthError::ChannelClosed,
{
    match e {
        RedirectWaitError::TimedOut => AuthError::TimedOut,
        RedirectWaitError::ChannelClosed => AuthError::ChannelClosed,
    }
}

/// Judges the token endpoint's answer: a success status with a decoded
/// credential yields the credential; a success status without one is
/// malformed; any other status is a rejection carrying that status.
pub fn token_exchange_outcome(status: u16, body: Option<TokenResponse>) -> (r: Result<
    TokenResponse,
    AuthError,
>)
    ensures
        match r {
            Ok(t) => 200 <= status < 300 && (body matches Some(b) && t == b),
            Err(e) => if 200 <= status < 300 {
                body is None && e == AuthError::MalformedTokenResponse
            } else {
                e == AuthError::ExchangeRejected(status)
            },
        },
{
    if 200 <= status && status < 300 {
        match body {
            Some(t) => Ok(t),
            None => Err(AuthError::MalformedTokenResponse),
        }
    } else {
        Err(AuthError::ExchangeRejected(status))
    }
}

/// Renders the token-exchange form body, exactly as `token_body_chars`
/// describes.
pub fn token_request_body(req: &TokenRequest) -> (r: String)
    ensures
        r@ == token_body_chars(*req),
{
    let mut b = String::from_str("grant_type=authorization_code&code=");
    append_encoded(&mut b, req.code.as_str());
    b.append("&redirect_uri=");
    append_encoded(&mut b, req.redirect_uri.as_str());
    b.append("&client_id=");
    append_encoded(&mut b, req.client_id.as_str());
    b.append("&client_secret=");
    append_encoded(&mut b, req.client_secret.as_str());
    b.append("&code_verifier=");
    append_encoded(&mut b, req.verifier.as_str());
    proof {
        assert(b@ =~= token_body_chars(*req));
    }
    b
}

/// Law: a redirect whose `state` differs from the attempt's CSRF token is
/// never answered with a token request — the decision is an error, and it is
/// the CSRF mismatch whenever the redirect carried a code at all.
pub proof fn lemma_csrf_mismatch_rejects(csrf: Seq<char>, url: Seq<char>, other: Seq<char>)
    requires
        query_param(url, "state"@) == Some(other),
        other != csrf,
    ensures
        !(redirect_decision(csrf, url) is Ok),
        query_param(url, "code"@) is Some ==> redirect_decision(csrf, url) == Err::<
            Seq<char>,
            AuthError,
        >(AuthError::CsrfMismatch),
{
}

} // verus!
