use synnapse::crypto::{check_hash, to_hash};

#[test]
fn hash_verifies_its_password() {
    let h = to_hash("s3cret");
    assert!(h.starts_with('$'));
    assert!(check_hash("s3cret", &h));
    assert!(!check_hash("s3cret!", &h));
}

#[test]
fn hashes_of_one_password_differ_and_both_verify() {
    let a = to_hash("pw");
    let b = to_hash("pw");
    assert_ne!(a, b);
    assert!(check_hash("pw", &b));
}

#[test]
fn garbage_hash_is_refused() {
    assert!(!check_hash("pw", "not a hash"));
    assert!(!check_hash("pw", ""));
    assert!(!check_hash("pw", "$pbkdf2-sha256$broken"));
    assert!(!check_hash("", "plain"));
}
