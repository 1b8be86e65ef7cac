use unseamless_coop::steam::token;

#[test]
fn token_is_deterministic_and_not_plaintext() {
    let a = token("hunter2");
    let b = token("hunter2");
    assert_eq!(a, b, "token must be deterministic across peers");
    assert_eq!(a.len(), 32, "128-bit token => 32 lowercase-hex chars");
    assert!(a.chars().all(|c| c.is_ascii_hexdigit()), "hex only");
    assert_ne!(a, "hunter2", "must never be the plaintext password");
    assert!(!a.contains("hunter2"));
}

#[test]
fn distinct_passwords_give_distinct_tokens() {
    assert_ne!(token("alpha"), token("beta"));
}

#[test]
fn token_matches_known_vector() {
    // The scheme is pinned byte for byte:
    // SHA-256("unseamless-coop/lobby-discovery/v1\0" + "swordfish")[0..16], lowercase hex.
    assert_eq!(token("swordfish"), "e1ae25ea4eab35799470c31622b014b8");
}
