use liidi::crypto::{TokenEncryption, verify_device_fingerprint};
use liidi::schema::SubscriptionState;
use liidi::subscription::SubscriptionValidator;

const FP: &str = "3b2a1f0e9d8c7b6a5f4e3d2c1b0a99887766554433221100aabbccddeeff0011";

fn now() -> i64 {
    1_700_000_000
}

fn test_state(status: &str, grace_ends_at: Option<i64>) -> SubscriptionState {
    SubscriptionState {
        id: 1,
        encrypted_token: "test_token".to_string(),
        subscription_status: status.to_string(),
        subscription_expires_at: None,
        token_issued_at: now(),
        token_expires_at: now() + 86_400,
        last_validated_at: now(),
        device_fingerprint: FP.to_string(),
        grace_period_ends_at: grace_ends_at,
    }
}

#[test]
fn test_active_subscription_is_valid() {
    let validator = SubscriptionValidator::from_state(test_state("active", None));
    assert!(validator.is_subscription_valid(FP, now()));
}

#[test]
fn test_expired_subscription_in_grace_period() {
    let grace_end = now() + 86_400;
    let validator = SubscriptionValidator::from_state(test_state("expired", Some(grace_end)));
    assert!(validator.is_subscription_valid(FP, now()));
}

#[test]
fn test_expired_subscription_past_grace_period() {
    let grace_end = now() - 86_400;
    let validator = SubscriptionValidator::from_state(test_state("expired", Some(grace_end)));
    assert!(!validator.is_subscription_valid(FP, now()));
}

#[test]
fn test_empty_validator_is_invalid() {
    let validator = SubscriptionValidator::empty();
    assert!(!validator.is_subscription_valid(FP, now()));
}

#[test]
fn test_verify_rejects_invalid() {
    assert!(!verify_device_fingerprint("invalid-fingerprint", FP));
}

#[test]
fn test_verify_matches() {
    assert!(verify_device_fingerprint(FP, FP));
}

#[test]
fn test_other_device_is_invalid() {
    let validator = SubscriptionValidator::from_state(test_state("active", None));
    assert!(!validator.is_subscription_valid("another-device", now()));
}

#[test]
fn test_unknown_status_is_invalid() {
    let validator = SubscriptionValidator::from_state(test_state("trialing", None));
    assert!(!validator.is_subscription_valid(FP, now()));
}

#[test]
fn test_status_reported() {
    let validator = SubscriptionValidator::from_state(test_state("past_due", None));
    assert_eq!(validator.get_status(), "past_due");
    assert_eq!(SubscriptionValidator::empty().get_status(), "unknown");
}

#[test]
fn test_grace_days_remaining() {
    let validator = SubscriptionValidator::from_state(test_state(
        "expired",
        Some(now() + 3 * 86_400 + 10),
    ));
    assert_eq!(validator.get_grace_period_days_remaining(now()), Some(3));
    let past = SubscriptionValidator::from_state(test_state("expired", Some(now() - 5)));
    assert_eq!(past.get_grace_period_days_remaining(now()), Some(0));
}

#[test]
fn test_lockout_reason_expired() {
    let validator = SubscriptionValidator::from_state(test_state("expired", Some(now() - 5)));
    let reason = validator.get_lockout_reason(FP, now()).expect("locked");
    assert_eq!(reason, "Subscription expired. Please renew to continue.");
}

#[test]
fn test_encryption_roundtrip() {
    let encryption = TokenEncryption::from_device_fingerprint("test-device-id");
    let original = "test-token-value";
    let encrypted = encryption.encrypt_token(original).unwrap();
    let decrypted = encryption.decrypt_token(&encrypted).unwrap();
    assert_eq!(original, decrypted);
}

#[test]
fn test_different_device_fails() {
    let encryption1 = TokenEncryption::from_device_fingerprint("device-1");
    let encryption2 = TokenEncryption::from_device_fingerprint("device-2");
    let original = "test-token-value";
    let encrypted = encryption1.encrypt_token(original).unwrap();
    assert!(encryption2.decrypt_token(&encrypted).is_err());
}

#[test]
fn test_validator_decrypt_token() {
    let encryption = TokenEncryption::from_device_fingerprint(FP);
    let sealed = encryption.encrypt_token("session-credential").unwrap();
    let mut state = test_state("active", None);
    state.encrypted_token = sealed;
    let validator = SubscriptionValidator::from_state(state);
    assert_eq!(validator.decrypt_token(FP).unwrap(), "session-credential");
    assert_eq!(
        validator.decrypt_token("other").unwrap_err(),
        "Device fingerprint mismatch"
    );
}
