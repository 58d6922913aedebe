use jpetstore_rs::auth::{hash_password, hashing_outcome, verify, AuthError};

#[test]
fn hash_then_verify_roundtrips() {
    let hash = hash_password("j2ee").unwrap();
    assert!(hash.starts_with("$argon2id$"));
    assert!(verify(&hash, "j2ee"));
    assert!(!verify(&hash, "j2ee "));
}

#[test]
fn garbage_hashes_verify_nothing() {
    assert!(!verify("j2ee", "j2ee"));
    assert!(!verify("", "anything"));
}

#[test]
fn two_hashes_of_one_password_differ_and_both_verify() {
    let a = hash_password("secret").unwrap();
    let b = hash_password("secret").unwrap();
    assert_ne!(a, b);
    assert!(verify(&a, "secret"));
    assert!(verify(&b, "secret"));
}

#[test]
fn hashing_outcomes_map_argon2_errors_to_hashing() {
    assert_eq!(hashing_outcome(Ok("$argon2id$x".to_string())), Ok("$argon2id$x".to_string()));
    assert_eq!(
        hashing_outcome(Err(argon2::password_hash::Error::RngFailure)),
        Err(AuthError::Hashing)
    );
}
