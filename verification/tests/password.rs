use authcore::password::{hash, verify, HashError};

#[test]
fn hash_then_verify_same_password_is_true() {
    let h = hash("pw123456").expect("hashing should succeed");
    assert_eq!(verify("pw123456", &h), Ok(true));
}

#[test]
fn hash_then_verify_other_password_is_false() {
    let h = hash("pw123456").expect("hashing should succeed");
    assert_eq!(verify("pw123457", &h), Ok(false));
    assert_eq!(verify("", &h), Ok(false));
    assert_eq!(verify("PW123456", &h), Ok(false));
}

#[test]
fn hash_is_self_describing_phc_string() {
    let h = hash("pw123456").expect("hashing should succeed");
    assert!(h.starts_with("$argon2id$"));
}

#[test]
fn hashes_are_salted_fresh() {
    let h1 = hash("pw123456").expect("hashing should succeed");
    let h2 = hash("pw123456").expect("hashing should succeed");
    assert_ne!(h1, h2);
}

#[test]
fn malformed_stored_hash_is_an_error_not_false() {
    assert_eq!(verify("pw123456", "not-a-phc-string"), Err(HashError::Malformed));
    assert_eq!(verify("pw123456", ""), Err(HashError::Malformed));
    assert_eq!(verify("pw123456", "$nosuchalg$v=19$m=19456,t=2,p=1$abcdefgh$abcdefgh"), Err(HashError::Malformed));
}
