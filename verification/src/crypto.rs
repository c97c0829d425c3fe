//! PKCE pair and CSRF token generation for the authorization handshake.
//!
//! The random generation and the SHA-256 digest come from the `oauth2`
//! crate; the challenge a verifier derives to is named by the
//! uninterpreted `pkce_challenge_of`, so every contract downstream speaks
//! of one and the same derivation.

use vstd::prelude::*;

verus! {

/// The challenge that a PKCE verifier derives to: the URL-safe no-padding
/// base64 of the SHA-256 digest of the verifier's bytes, as computed by
/// `oauth2::PkceCodeChallenge::from_code_verifier_sha256`.
pub uninterp spec fn pkce_challenge_of(verifier: Seq<char>) -> Seq<char>;

/// Whether `c` may appear in a PKCE verifier: a letter, a digit, or one of
/// `-`, `.`, `_`, `~`.
pub open spec fn is_verifier_char(c: char) -> bool {
    ('A' <= c && c <= 'Z') || ('a' <= c && c <= 'z') || ('0' <= c && c <= '9') || c == '-' || c
        == '.' || c == '_' || c == '~'
}

/// A valid PKCE verifier: 43 to 128 characters, all from the verifier
/// alphabet (which is ASCII, so character and byte counts agree).
pub open spec fn is_valid_verifier(s: Seq<char>) -> bool {
    43 <= s.len() <= 128 && forall|i: int| 0 <= i < s.len() ==> is_verifier_char(#[trigger] s[i])
}

/// A fresh verifier/challenge pair for one handshake attempt; the method is
/// always the SHA-256 one.
pub struct PkcePair {
    pub verifier: String,
    pub challenge: String,
    pub method: String,
}

/// What every generated pair satisfies: a valid verifier, the challenge
/// derived from it, and the fixed method name.
pub open spec fn pkce_pair_wf(p: PkcePair) -> bool {
    &&& is_valid_verifier(p.verifier@)
    &&& p.challenge@ == pkce_challenge_of(p.verifier@)
    &&& p.challenge@.len() == 43
    &&& p.method@ == "S256"@
}

/// Relies on `oauth2::PkceCodeChallenge::new_random_sha256`: it draws 32
/// random bytes, makes the verifier their URL-safe no-padding base64 (43
/// characters of the verifier alphabet) and derives the challenge from the
/// verifier with `from_code_verifier_sha256` (43 characters as well, the
/// base64 of a 32-byte digest).
#[verifier::external_body]
fn random_pkce_raw() -> (r: (String, String))
    ensures
        r.1@ == pkce_challenge_of(r.0@),
        r.0@.len() == 43,
        is_valid_verifier(r.0@),
        r.1@.len() == 43,
{
    let (challenge, verifier) = oauth2::PkceCodeChallenge::new_random_sha256();
    (verifier.secret().clone(), challenge.as_str().to_string())
}

/// Relies on `oauth2::PkceCodeChallenge::from_code_verifier_sha256`: the
/// challenge is the URL-safe no-padding base64 of the SHA-256 digest of the
/// verifier (43 characters); the call panics unless the verifier is 43 to
/// 128 bytes long, which the precondition rules out.
#[verifier::external_body]
fn sha256_challenge_raw(verifier: &str) -> (r: String)
    requires
        is_valid_verifier(verifier@),
    ensures
        r@ == pkce_challenge_of(verifier@),
        r@.len() == 43,
{
    let v = oauth2::PkceCodeVerifier::new(verifier.to_string());
    oauth2::PkceCodeChallenge::from_code_verifier_sha256(&v).as_str().to_string()
}

/// Relies on `oauth2::CsrfToken::new_random`: 16 random bytes, returned as
/// their URL-safe no-padding base64, which is 22 characters long.
#[verifier::external_body]
fn random_csrf_raw() -> (r: String)
    ensures
        r@.len() == 22,
{
    oauth2::CsrfToken::new_random().secret().clone()
}

/// Generates a fresh PKCE pair for one handshake attempt.
pub fn generate_pkce_pair() -> (p: PkcePair)
    ensures
        pkce_pair_wf(p),
{
    let (verifier, challenge) = random_pkce_raw();
    PkcePair { verifier, challenge, method: "S256".to_owned() }
}

/// Derives the challenge of a valid verifier. The derivation is a function
/// of the verifier alone, so two calls on equal verifiers agree; and since
/// a challenge is always 43 characters, a verifier of any other length can
/// never equal its own challenge.
pub fn derive_challenge(verifier: &str) -> (r: String)
    requires
        is_valid_verifier(verifier@),
    ensures
        r@ == pkce_challenge_of(verifier@),
        r@.len() == 43,
        verifier@.len() != 43 ==> r@ != verifier@,
{
    sha256_challenge_raw(verifier)
}

/// Generates a fresh CSRF token for one handshake attempt.
pub fn generate_csrf_token() -> (t: String)
    ensures
        t@.len() == 22,
{
    random_csrf_raw()
}

/// Checks the verifier alphabet and length, exactly as `is_valid_verifier`
/// describes.
pub fn is_valid_pkce_verifier(s: &str) -> (b: bool)
    ensures
        b == is_valid_verifier(s@),
{
    let n = s.unicode_len();
    if n < 43 || n > 128 {
        return false;
    }
    let mut i: usize = 0;
    while i < n
        invariant
            i <= n,
            n == s@.len(),
            forall|j: int| 0 <= j < i ==> is_verifier_char(#[trigger] s@[j]),
        decreases n - i,
    {
        let c = s.get_char(i);
        let ok = ('A' <= c && c <= 'Z') || ('a' <= c && c <= 'z') || ('0' <= c && c <= '9') || c
            == '-' || c == '.' || c == '_' || c == '~';
        if !ok {
            return false;
        }
        i += 1;
    }
    true
}

/// Law: challenge derivation is reproducible. Deriving from equal verifiers
/// yields equal challenges, in any two handshake attempts.
pub proof fn lemma_challenge_reproducible(v1: Seq<char>, c1: Seq<char>, v2: Seq<char>, c2: Seq<char>)
    requires
        c1 == pkce_challenge_of(v1),
        c2 == pkce_challenge_of(v2),
        v1 == v2,
    ensures
        c1 == c2,
{
}

} // verus!
