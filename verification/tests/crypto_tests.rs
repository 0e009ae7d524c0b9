use auth_core::crypto::CredentialHasher;

#[test]
fn password_verifies_against_its_own_hash() {
    let hasher = CredentialHasher::new();
    let hash = hasher.hash("Rasengan1!").unwrap();
    assert!(hasher.verify("Rasengan1!", &hash));
}

#[test]
fn different_password_does_not_verify() {
    let hasher = CredentialHasher::new();
    let hash = hasher.hash("Rasengan1!").unwrap();
    assert!(!hasher.verify("Chidori1!", &hash));
    assert!(!hasher.verify("", &hash));
    assert!(!hasher.verify("Rasengan1", &hash));
}

#[test]
fn hash_output_is_self_describing_and_salted() {
    let hasher = CredentialHasher::new();
    let h1 = hasher.hash("same-password").unwrap();
    let h2 = hasher.hash("same-password").unwrap();
    // The algorithm tag is embedded in the encoded output.
    assert!(h1.starts_with("$argon2"));
    // A fresh salt is drawn per call, so the encodings differ ...
    assert_ne!(h1, h2);
    // ... yet both accept the password they were made from.
    assert!(hasher.verify("same-password", &h1));
    assert!(hasher.verify("same-password", &h2));
}

#[test]
fn garbage_stored_hash_verifies_nothing() {
    let hasher = CredentialHasher::new();
    assert!(!hasher.verify("anything", "not-an-encoded-hash"));
    assert!(!hasher.verify("anything", ""));
}
