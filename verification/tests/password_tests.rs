use folder_locker::error::LockerError;
use folder_locker::password::{hash_password, verify_password};

#[test]
fn hash_then_verify_succeeds() {
    let digest = hash_password("hunter2").unwrap();
    assert_eq!(digest.len(), 60);
    assert_ne!(digest, "hunter2");
    assert_eq!(verify_password("hunter2", &digest).unwrap(), true);
}

#[test]
fn wrong_password_is_false_not_error() {
    let digest = hash_password("hunter2").unwrap();
    assert_eq!(verify_password("wrong", &digest).unwrap(), false);
}

#[test]
fn malformed_digest_is_an_error() {
    let err = verify_password("hunter2", "not a bcrypt digest").unwrap_err();
    match &err {
        LockerError::PasswordOperationFailed { operation, reason } => {
            assert_eq!(operation, "verify");
            assert_eq!(reason, "Authentication error");
        }
        other => panic!("unexpected error: {:?}", other),
    }
    assert_eq!(err.message(), "Failed to verify password: Authentication error");
}

#[test]
fn digests_differ_but_both_verify() {
    let d1 = hash_password("same password").unwrap();
    let d2 = hash_password("same password").unwrap();
    assert_ne!(d1, d2);
    assert_eq!(verify_password("same password", &d1).unwrap(), true);
    assert_eq!(verify_password("same password", &d2).unwrap(), true);
}
