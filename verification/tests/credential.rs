use auth_core::credential;

#[test]
fn verify_accepts_own_hash() {
    let h = credential::hash("correct horse battery staple").unwrap();
    assert!(credential::verify("correct horse battery staple", &h));
}

#[test]
fn verify_rejects_other_password() {
    let h = credential::hash("pw").unwrap();
    assert!(!credential::verify("pw2", &h));
    assert!(!credential::verify("", &h));
    assert!(!credential::verify("PW", &h));
}

#[test]
fn two_hashes_differ_but_both_verify() {
    let h1 = credential::hash("same password").unwrap();
    let h2 = credential::hash("same password").unwrap();
    assert_ne!(h1, h2);
    assert!(credential::verify("same password", &h1));
    assert!(credential::verify("same password", &h2));
}

#[test]
fn empty_password_round_trips() {
    let h = credential::hash("").unwrap();
    assert!(credential::verify("", &h));
    assert!(!credential::verify("x", &h));
}

#[test]
fn hash_is_not_the_plaintext() {
    let h = credential::hash("plaintext").unwrap();
    assert_ne!(h, "plaintext");
    assert!(h.starts_with('$'));
}
