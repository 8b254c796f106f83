use zeroclaw::config::SignalConfig;
use zeroclaw::signal_pin::{
    LoadedState, SignalPinGateStatus, SignalPinLockReason, SignalPinManager, SignalPinReminder,
    SignalPinVerifyResult,
};

fn make_config() -> SignalConfig {
    SignalConfig {
        http_url: "http://127.0.0.1:8686".to_string(),
        account: "+1234567890".to_string(),
        group_id: None,
        allowed_from: vec!["*".to_string()],
        ignore_attachments: false,
        ignore_stories: false,
        pin_verification: true,
        pin_reverify_days: 7,
        pin_adaptive_schedule: true,
        pin_reminder_hours_before: 12,
        pin_max_failed_attempts: 5,
        pin_lockout_minutes: 30,
        pin_min_length: 4,
        pin_allow_alphanumeric: true,
    }
}

fn setup_manager(config: &SignalConfig) -> SignalPinManager {
    SignalPinManager::new(config, "/tmp/zeroclaw-test", true)
}

fn ts(rfc3339: &str) -> i64 {
    chrono::DateTime::parse_from_rfc3339(rfc3339).unwrap().timestamp()
}

#[test]
fn verify_pin_advances_adaptive_schedule() {
    let mut manager = setup_manager(&make_config());
    let t0 = ts("2026-02-23T12:00:00Z");
    manager.set_pin_at("Abc123", t0).unwrap();

    let t1 = ts("2026-02-24T13:00:00Z");
    let v1 = manager.verify_pin_attempt_at("Abc123", t1);
    match v1 {
        SignalPinVerifyResult::Verified { next_verify_at } => {
            assert_eq!(next_verify_at, ts("2026-02-27T13:00:00Z"));
        }
        other => panic!("expected verified, got {other:?}"),
    }

    let t2 = ts("2026-02-27T13:30:00Z");
    let v2 = manager.verify_pin_attempt_at("Abc123", t2);
    match v2 {
        SignalPinVerifyResult::Verified { next_verify_at } => {
            assert_eq!(next_verify_at, ts("2026-03-06T13:30:00Z"));
        }
        other => panic!("expected verified, got {other:?}"),
    }
}

#[test]
fn fixed_schedule_respects_pin_reverify_days() {
    let mut config = make_config();
    config.pin_adaptive_schedule = false;
    config.pin_reverify_days = 10;
    let mut manager = setup_manager(&config);

    let now = ts("2026-02-23T12:00:00Z");
    manager.set_pin_at("1234", now).unwrap();
    let status = manager.status_at(now);
    assert_eq!(status.next_verify_at, Some(ts("2026-03-05T12:00:00Z")));
}

#[test]
fn incorrect_attempts_trigger_lockout() {
    let mut config = make_config();
    config.pin_max_failed_attempts = 2;
    config.pin_lockout_minutes = 15;
    let mut manager = setup_manager(&config);

    let now = ts("2026-02-23T12:00:00Z");
    manager.set_pin_at("9999", now).unwrap();

    let first = manager.verify_pin_attempt_at("0000", now);
    assert_eq!(
        first,
        SignalPinVerifyResult::Incorrect {
            remaining_attempts: 1,
            lockout_minutes: 15
        }
    );

    let second = manager.verify_pin_attempt_at("1111", now + 1);
    assert_eq!(
        second,
        SignalPinVerifyResult::LockedOut {
            remaining_minutes: 15
        }
    );

    let status = manager.status_at(now + 1);
    assert!(status.locked);
    assert_eq!(status.lock_reason, Some(SignalPinLockReason::LockedOut));
}

#[test]
fn gate_is_fail_closed_when_state_missing_or_corrupt() {
    let manager = setup_manager(&make_config());
    let now = ts("2026-02-23T12:00:00Z");
    let status = manager.gate_status_at(now);
    assert_eq!(
        status,
        SignalPinGateStatus::Locked {
            reason: SignalPinLockReason::NotConfigured
        }
    );

    let corrupt = SignalPinManager::with_state(
        &make_config(),
        "/tmp/zeroclaw-test",
        true,
        LoadedState::Corrupt,
    );
    let status = corrupt.gate_status_at(now);
    assert_eq!(
        status,
        SignalPinGateStatus::Locked {
            reason: SignalPinLockReason::CorruptState
        }
    );
}

#[test]
fn reminder_is_emitted_once_per_window() {
    let mut manager = setup_manager(&make_config());
    let now = ts("2026-02-23T12:00:00Z");
    manager.set_pin_at("A1b2", now).unwrap();

    let near_expiry = ts("2026-02-24T01:00:00Z");

    let first = manager.gate_status_at(near_expiry);
    match first {
        SignalPinGateStatus::Open {
            reminder: Some(SignalPinReminder { hours_remaining }),
        } => assert_eq!(hours_remaining, 11),
        other => panic!("expected reminder, got {other:?}"),
    }

    manager.mark_reminder_sent_at(near_expiry);
    let second = manager.gate_status_at(near_expiry);
    assert_eq!(second, SignalPinGateStatus::Open { reminder: None });
}

#[test]
fn verify_pin_without_side_effects_does_not_increment_counters() {
    let mut manager = setup_manager(&make_config());
    let now = ts("2026-02-23T12:00:00Z");
    manager.set_pin_at("Abc123", now).unwrap();

    assert!(manager.verify_pin_without_side_effects("Abc123"));

    let status = manager.status_at(now);
    assert_eq!(status.verification_count, 0);
    assert_eq!(status.failed_attempts, 0);
}

#[test]
fn pin_validation_enforces_length_and_alphabet() {
    let mut manager = setup_manager(&make_config());
    let now = ts("2026-02-23T12:00:00Z");
    assert!(manager.set_pin_at("a1", now).is_err());
    assert!(manager.set_pin_at("abc 123", now).is_err());

    let mut digits_only = make_config();
    digits_only.pin_allow_alphanumeric = false;
    let mut strict = setup_manager(&digits_only);
    assert!(strict.set_pin_at("abcd", now).is_err());
    assert!(strict.set_pin_at("2468", now).is_ok());
}

#[test]
fn wrong_pin_never_verifies() {
    let mut manager = setup_manager(&make_config());
    let now = ts("2026-02-23T12:00:00Z");
    manager.set_pin_at("Abc123", now).unwrap();
    assert!(!manager.verify_pin_without_side_effects("Abc124"));
    match manager.verify_pin_attempt_at("Abc124", now) {
        SignalPinVerifyResult::Incorrect {
            remaining_attempts,
            lockout_minutes,
        } => {
            assert_eq!(remaining_attempts, 4);
            assert_eq!(lockout_minutes, 30);
        }
        other => panic!("expected incorrect, got {other:?}"),
    }
}

#[test]
fn expired_schedule_locks_the_gate() {
    let mut manager = setup_manager(&make_config());
    let t0 = ts("2026-02-23T12:00:00Z");
    manager.set_pin_at("Abc123", t0).unwrap();
    let after = ts("2026-02-25T12:00:01Z");
    assert_eq!(
        manager.gate_status_at(after),
        SignalPinGateStatus::Locked {
            reason: SignalPinLockReason::Expired
        }
    );
}
