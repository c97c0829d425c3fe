use github_notifier::crypto::{
    derive_challenge, generate_csrf_token, generate_pkce_pair, is_valid_pkce_verifier,
};

// The verifier/challenge pair of RFC 7636, appendix B.
const RFC_VERIFIER: &str = "dBjftJeZ4CVP-mB92K27uhbUJU1p1r_wW1gFWFOEjXk";
const RFC_CHALLENGE: &str = "E9Melhoa2OwvFrEMTJguCHaoeK1t8URWbuGJSstw-cM";

#[test]
fn derives_known_challenge() {
    assert_eq!(derive_challenge(RFC_VERIFIER), RFC_CHALLENGE);
}

#[test]
fn derivation_is_reproducible() {
    assert_eq!(derive_challenge(RFC_VERIFIER), derive_challenge(RFC_VERIFIER));
}

#[test]
fn generated_pair_is_well_formed() {
    let pair = generate_pkce_pair();
    assert_eq!(pair.verifier.chars().count(), 43);
    assert_eq!(pair.challenge.chars().count(), 43);
    assert_eq!(pair.method, "S256");
    assert!(is_valid_pkce_verifier(&pair.verifier));
}

#[test]
fn challenge_never_equals_verifier() {
    assert_ne!(derive_challenge(RFC_VERIFIER), RFC_VERIFIER);
    let pair = generate_pkce_pair();
    assert_ne!(pair.challenge, pair.verifier);
}

#[test]
fn pair_challenge_matches_derivation() {
    let pair = generate_pkce_pair();
    assert_eq!(derive_challenge(&pair.verifier), pair.challenge);
}

#[test]
fn verifier_validity_bounds() {
    assert!(is_valid_pkce_verifier(RFC_VERIFIER));
    assert!(!is_valid_pkce_verifier("too-short"));
    assert!(!is_valid_pkce_verifier(&"a".repeat(129)));
    assert!(is_valid_pkce_verifier(&"a".repeat(128)));
    assert!(!is_valid_pkce_verifier(&format!("{}!", "a".repeat(42))));
}

#[test]
fn csrf_tokens_are_fresh_and_sized() {
    let t1 = generate_csrf_token();
    let t2 = generate_csrf_token();
    assert_eq!(t1.chars().count(), 22);
    assert_eq!(t2.chars().count(), 22);
    assert_ne!(t1, t2);
}
