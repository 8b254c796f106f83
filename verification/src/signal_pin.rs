//! The Signal PIN check: an Argon2-hashed PIN that senders must re-verify
//! on a fixed or adaptive schedule, with failed-attempt lockout, a
//! pre-expiry reminder window, and fail-closed behaviour on missing or
//! corrupt state. Timestamps are seconds since the Unix epoch; the state
//! machine is pure, and persisting its state to disk is the embedding
//! layer's.

use vstd::prelude::*;

use argon2::password_hash::{PasswordHasher, PasswordVerifier, SaltString};

use crate::config::SignalConfig;
use crate::text::{str_trim, trim_chars};

verus! {

/// File name under which the embedding layer persists the PIN state.
pub fn signal_pin_state_file() -> (r: &'static str)
    ensures
        r@ == "signal-pin-state.json"@,
{
    "signal-pin-state.json"
}

/// Why the PIN check refuses messages.
#[derive(Clone, Copy, Debug, PartialEq, Eq, Structural)]
pub enum SignalPinLockReason {
    Expired,
    LockedOut,
    NotConfigured,
    CorruptState,
}

/// A pre-expiry reminder: how many whole hours remain.
#[derive(Clone, Copy, Debug, PartialEq, Eq, Structural)]
pub struct SignalPinReminder {
    pub hours_remaining: u64,
}

/// Whether messages pass the PIN check right now.
#[derive(Clone, Copy, Debug, PartialEq, Eq, Structural)]
pub enum SignalPinGateStatus {
    Open { reminder: Option<SignalPinReminder> },
    Locked { reason: SignalPinLockReason },
}

/// The outcome of one verification attempt.
#[derive(Clone, Copy, Debug, PartialEq, Eq, Structural)]
pub enum SignalPinVerifyResult {
    Verified { next_verify_at: i64 },
    Incorrect { remaining_attempts: u32, lockout_minutes: u32 },
    LockedOut { remaining_minutes: u32 },
    NotConfigured,
    CorruptState,
}

/// A full status report of the PIN check.
#[derive(Clone, Debug)]
pub struct SignalPinStatus {
    pub verification_enabled: bool,
    pub state_path: String,
    pub configured: bool,
    pub locked: bool,
    pub lock_reason: Option<SignalPinLockReason>,
    pub lockout_remaining_minutes: Option<u32>,
    pub last_verified_at: Option<i64>,
    pub next_verify_at: Option<i64>,
    pub verification_count: u32,
    pub failed_attempts: u32,
}

/// The PIN policy, clamped from the channel configuration.
#[derive(Clone, Copy, Debug, PartialEq, Eq, Structural)]
pub struct SignalPinPolicy {
    pub pin_verification: bool,
    pub pin_reverify_days: u32,
    pub pin_adaptive_schedule: bool,
    pub pin_reminder_hours_before: u32,
    pub pin_max_failed_attempts: u32,
    pub pin_lockout_minutes: u32,
    pub pin_min_length: u32,
    pub pin_allow_alphanumeric: bool,
}

/// The clamped policy a configuration yields.
pub open spec fn spec_policy_from(config: SignalConfig) -> SignalPinPolicy {
    SignalPinPolicy {
        pin_verification: config.pin_verification,
        pin_reverify_days: if config.pin_reverify_days < 1 {
            1u32
        } else if config.pin_reverify_days > 30 {
            30u32
        } else {
            config.pin_reverify_days
        },
        pin_adaptive_schedule: config.pin_adaptive_schedule,
        pin_reminder_hours_before: config.pin_reminder_hours_before,
        pin_max_failed_attempts: if config.pin_max_failed_attempts < 1 {
            1u32
        } else {
            config.pin_max_failed_attempts
        },
        pin_lockout_minutes: if config.pin_lockout_minutes < 1 {
            1u32
        } else if config.pin_lockout_minutes > 44640 {
            44640u32
        } else {
            config.pin_lockout_minutes
        },
        pin_min_length: if config.pin_min_length < 1 {
            1u32
        } else {
            config.pin_min_length
        },
        pin_allow_alphanumeric: config.pin_allow_alphanumeric,
    }
}

impl SignalPinPolicy {
    /// A policy's clamps hold: constructors establish them.
    pub open spec fn wf(&self) -> bool {
        &&& 1 <= self.pin_reverify_days <= 30
        &&& self.pin_max_failed_attempts >= 1
        &&& 1 <= self.pin_lockout_minutes <= 44640
        &&& self.pin_min_length >= 1
    }

    /// Clamp the configured policy: 1 to 30 days between verifications,
    /// at least one permitted attempt, a lockout between a minute and 31
    /// days, and a PIN of at least one character.
    pub fn from_config(config: &SignalConfig) -> (r: SignalPinPolicy)
        ensures
            r == spec_policy_from(*config),
            r.wf(),
    {
        SignalPinPolicy {
            pin_verification: config.pin_verification,
            pin_reverify_days: if config.pin_reverify_days < 1 {
                1
            } else if config.pin_reverify_days > 30 {
                30
            } else {
                config.pin_reverify_days
            },
            pin_adaptive_schedule: config.pin_adaptive_schedule,
            pin_reminder_hours_before: config.pin_reminder_hours_before,
            pin_max_failed_attempts: if config.pin_max_failed_attempts < 1 {
                1
            } else {
                config.pin_max_failed_attempts
            },
            pin_lockout_minutes: if config.pin_lockout_minutes < 1 {
                1
            } else if config.pin_lockout_minutes > 44640 {
                44640
            } else {
                config.pin_lockout_minutes
            },
            pin_min_length: if config.pin_min_length < 1 {
                1
            } else {
                config.pin_min_length
            },
            pin_allow_alphanumeric: config.pin_allow_alphanumeric,
        }
    }
}

/// The re-verification interval in days after a given verification
/// count.
pub open spec fn spec_interval_days(policy: SignalPinPolicy, verification_count: u32) -> u32 {
    if !policy.pin_adaptive_schedule {
        policy.pin_reverify_days
    } else if verification_count == 0 {
        1u32
    } else if verification_count == 1 {
        3u32
    } else if verification_count == 2 {
        7u32
    } else {
        policy.pin_reverify_days
    }
}

/// The persisted PIN state, as plain values.
#[derive(Clone, Debug)]
pub struct SignalPinState {
    pub pin_hash: String,
    pub last_verified_at: Option<i64>,
    pub verification_count: u32,
    pub next_verify_at: Option<i64>,
    pub failed_attempts: u32,
    pub locked_until: Option<i64>,
    pub last_reminder_at: Option<i64>,
}

/// What loading the persisted state produced. Unreadable or undecodable
/// state is distinguished from absent state: the check fails closed on it.
#[derive(Clone, Debug)]
pub enum LoadedState {
    Missing,
    Corrupt,
    Available(SignalPinState),
}

/// The PIN manager: the policy and the loaded state it steps.
#[derive(Clone, Debug)]
pub struct SignalPinManager {
    pub state_path: String,
    pub secrets_encrypt: bool,
    pub policy: SignalPinPolicy,
    pub state: LoadedState,
}

// ---------------------------------------------------------------------------
// Argon2 trust boundary
// ---------------------------------------------------------------------------

/// Whether a PIN verifies against a password hash: what
/// `Argon2::verify_password` decides, as a function of the two texts.
pub uninterp spec fn argon2_matches(pin: Seq<char>, hash: Seq<char>) -> bool;

/// Relies on `argon2::Argon2::hash_password` with a fresh random salt
/// (its bytes drawn from the operating system's generator through
/// `uuid::Uuid::new_v4`): the returned PHC string verifies against the
/// PIN it was derived from.
#[verifier::external_body]
pub fn hash_pin(pin: &str) -> (r: Result<String, String>)
    ensures
        r matches Ok(h) ==> argon2_matches(pin@, h@) && h@.len() > 0,
{
    let salt_bytes = uuid::Uuid::new_v4();
    let salt = match SaltString::encode_b64(salt_bytes.as_bytes()) {
        Ok(salt) => salt,
        Err(error) => return Err(error.to_string()),
    };
    match argon2::Argon2::default().hash_password(pin.as_bytes(), &salt) {
        Ok(hashed) => Ok(hashed.to_string()),
        Err(error) => Err(error.to_string()),
    }
}

/// Relies on `argon2::Argon2::verify_password` (with
/// `PasswordHash::new`): whether the PIN matches the PHC hash string; an
/// unparseable hash never matches.
#[verifier::external_body]
pub fn verify_pin_against_hash(pin: &str, hash: &str) -> (r: bool)
    ensures
        r == argon2_matches(pin@, hash@),
{
    let Ok(parsed_hash) = argon2::PasswordHash::new(hash) else {
        return false;
    };
    argon2::Argon2::default().verify_password(pin.as_bytes(), &parsed_hash).is_ok()
}

// ---------------------------------------------------------------------------
// PIN validation
// ---------------------------------------------------------------------------

pub open spec fn all_ascii_digits(s: Seq<char>) -> bool {
    forall|i: int| 0 <= i < s.len() ==> 48 <= #[trigger] s[i] as u32 <= 57
}

pub open spec fn all_ascii_alnum(s: Seq<char>) -> bool {
    forall|i: int| 0 <= i < s.len() ==> crate::text::is_alnum_char(#[trigger] s[i])
}

/// Whether a candidate PIN meets the policy: long enough after trimming,
/// and alphanumeric or digits-only as configured.
pub open spec fn spec_pin_valid(pin: Seq<char>, policy: SignalPinPolicy) -> bool {
    &&& trim_chars(pin).len() >= policy.pin_min_length
    &&& if policy.pin_allow_alphanumeric {
        all_ascii_alnum(trim_chars(pin))
    } else {
        all_ascii_digits(trim_chars(pin))
    }
}

/// Check a candidate PIN against the policy.
pub fn validate_pin(pin: &str, policy: &SignalPinPolicy) -> (r: Result<(), String>)
    ensures
        r is Ok <==> spec_pin_valid(pin@, *policy),
{
    let normalized = str_trim(pin);
    let n = normalized.unicode_len();
    if n < policy.pin_min_length as usize {
        return Err("Signal PIN is shorter than the configured minimum length".to_owned());
    }
    let mut i: usize = 0;
    while i < n
        invariant
            normalized@ == trim_chars(pin@),
            n == normalized@.len(),
            n >= policy.pin_min_length,
            i <= n,
            policy.pin_allow_alphanumeric ==> forall|k: int|
                0 <= k < i ==> crate::text::is_alnum_char(#[trigger] normalized@[k]),
            !policy.pin_allow_alphanumeric ==> forall|k: int|
                0 <= k < i ==> 48 <= #[trigger] normalized@[k] as u32 <= 57,
        decreases n - i,
    {
        let c = normalized.get_char(i);
        let v = c as u32;
        if policy.pin_allow_alphanumeric {
            let ok = (48 <= v && v <= 57) || (65 <= v && v <= 90) || (97 <= v && v <= 122);
            if !ok {
                return Err(
                    "Signal PIN may contain only ASCII letters and digits when pin_allow_alphanumeric=true".to_owned(),
                );
            }
        } else {
            if !(48 <= v && v <= 57) {
                return Err(
                    "Signal PIN must contain only digits when pin_allow_alphanumeric=false".to_owned(),
                );
            }
        }
        i = i + 1;
    }
    Ok(())
}

/// Whole minutes until a deadline, rounded up, never negative, and
/// saturated at the widest reportable value.
pub open spec fn spec_minutes_until(now: i64, target: i64) -> int {
    if target <= now {
        0
    } else if target - now >= (u32::MAX as int) * 60 {
        u32::MAX as int
    } else {
        (target - now + 59) / 60
    }
}

/// Minutes remaining until a deadline, rounded up.
pub fn minutes_until(now: i64, target: i64) -> (r: u32)
    requires
        now >= 0,
    ensures
        r == spec_minutes_until(now, target),
{
    if target <= now {
        0
    } else {
        let d = target - now;
        if d >= 0xffffffffi64 * 60 {
            u32::MAX
        } else {
            proof {
                assert((d + 59) / 60 <= u32::MAX);
            }
            ((d + 59) / 60) as u32
        }
    }
}

impl SignalPinManager {
    /// A manager over freshly-loaded state. The state file path is
    /// `zeroclaw_dir/signal-pin-state.json`.
    pub fn new(config: &SignalConfig, zeroclaw_dir: &str, secrets_encrypt: bool) -> (r:
        SignalPinManager)
        ensures
            r.policy == spec_policy_from(*config),
            r.policy.wf(),
            r.state is Missing,
            r.secrets_encrypt == secrets_encrypt,
            r.state_path@ == zeroclaw_dir@ + "/"@ + "signal-pin-state.json"@,
    {
        let state_path = zeroclaw_dir.to_owned().concat("/").concat("signal-pin-state.json");
        proof {
            assert(state_path@ =~= zeroclaw_dir@ + "/"@ + "signal-pin-state.json"@);
        }
        SignalPinManager {
            state_path,
            secrets_encrypt,
            policy: SignalPinPolicy::from_config(config),
            state: LoadedState::Missing,
        }
    }

    /// A manager over state the embedding layer has loaded from disk.
    pub fn with_state(config: &SignalConfig, zeroclaw_dir: &str, secrets_encrypt: bool, state: LoadedState) -> (r:
        SignalPinManager)
        ensures
            r.policy == spec_policy_from(*config),
            r.policy.wf(),
            r.state == state,
            r.secrets_encrypt == secrets_encrypt,
    {
        let mut m = SignalPinManager::new(config, zeroclaw_dir, secrets_encrypt);
        m.state = state;
        m
    }

    /// Where the embedding layer persists the state.
    pub fn state_path(&self) -> (r: &str)
        ensures
            r@ == self.state_path@,
    {
        self.state_path.as_str()
    }

    /// The re-verification interval after a given number of successful
    /// verifications: 1, 3 and 7 days for the first three under the
    /// adaptive schedule, the configured interval after that or always
    /// under the fixed schedule.
    pub fn next_interval_days_after_count(&self, verification_count: u32) -> (r: u32)
        ensures
            r == spec_interval_days(self.policy, verification_count),
    {
        if !self.policy.pin_adaptive_schedule {
            return self.policy.pin_reverify_days;
        }
        match verification_count {
            0 => 1,
            1 => 3,
            2 => 7,
            _ => self.policy.pin_reverify_days,
        }
    }

    /// Set a new PIN at a given time: the PIN is validated and hashed;
    /// the schedule restarts at verification count zero, so the next
    /// verification falls one interval after `now`.
    pub fn set_pin_at(&mut self, pin: &str, now: i64) -> (r: Result<(), String>)
        requires
            0 <= now <= i64::MAX - 2678400,
            old(self).policy.wf(),
        ensures
            r is Err ==> *final(self) == *old(self),
            !spec_pin_valid(pin@, old(self).policy) ==> r is Err,
            final(self).policy == old(self).policy,
            final(self).state_path == old(self).state_path,
            final(self).secrets_encrypt == old(self).secrets_encrypt,
            r is Ok ==> (final(self).state matches LoadedState::Available(st) && {
                &&& argon2_matches(pin@, st.pin_hash@)
                &&& trim_chars(st.pin_hash@).len() > 0
                &&& st.last_verified_at == Some(now)
                &&& st.verification_count == 0
                &&& st.next_verify_at == Some(
                    (now + (spec_interval_days(old(self).policy, 0) as int) * 86400) as i64,
                )
                &&& st.failed_attempts == 0
                &&& st.locked_until is None
                &&& st.last_reminder_at is None
            }),
    {
        match validate_pin(pin, &self.policy) {
            Ok(_) => {},
            Err(e) => {
                return Err(e);
            },
        }
        let next_interval_days = self.next_interval_days_after_count(0);
        let hash = match hash_pin(pin) {
            Ok(h) => h,
            Err(e) => {
                return Err(e);
            },
        };
        if str_trim(hash.as_str()).unicode_len() == 0 {
            return Err("Signal PIN hashing produced an empty hash".to_owned());
        }
        proof {
            assert(next_interval_days <= 30);
        }
        let state = SignalPinState {
            pin_hash: hash,
            last_verified_at: Some(now),
            verification_count: 0,
            next_verify_at: Some(now + (next_interval_days as i64) * 86400),
            failed_attempts: 0,
            locked_until: None,
            last_reminder_at: None,
        };
        self.state = LoadedState::Available(state);
        Ok(())
    }

    /// Check a PIN without side effects: no counter moves, nothing is
    /// recorded. Missing or corrupt state never verifies.
    pub fn verify_pin_without_side_effects(&self, pin: &str) -> (r: bool)
        ensures
            r == (match self.state {
                LoadedState::Available(ref st) => argon2_matches(pin@, st.pin_hash@),
                _ => false,
            }),
    {
        match &self.state {
            LoadedState::Available(st) => verify_pin_against_hash(pin, st.pin_hash.as_str()),
            _ => false,
        }
    }

    /// One verification attempt at a given time.
    ///
    /// Missing state is not configured; corrupt state fails closed. An
    /// attempt during a lockout reports the minutes left. A correct PIN
    /// clears the failure counters and schedules the next verification
    /// one interval ahead (the interval growing with the verification
    /// count under the adaptive schedule). A wrong PIN increments the
    /// failure counter and, at the configured maximum, locks the sender
    /// out for the configured minutes.
    pub fn verify_pin_attempt_at(&mut self, pin: &str, now: i64) -> (r: SignalPinVerifyResult)
        requires
            0 <= now <= i64::MAX - 2678400,
            old(self).policy.wf(),
        ensures
            final(self).policy == old(self).policy,
            final(self).state_path == old(self).state_path,
            final(self).secrets_encrypt == old(self).secrets_encrypt,
            old(self).state is Missing ==> (r == SignalPinVerifyResult::NotConfigured && *final(self) == *old(self)),
            old(self).state is Corrupt ==> (r == SignalPinVerifyResult::CorruptState && *final(self) == *old(self)),
            old(self).state matches LoadedState::Available(st) ==> (trim_chars(st.pin_hash@).len()
                == 0 ==> (r == SignalPinVerifyResult::NotConfigured && *final(self) == *old(self))),
            old(self).state matches LoadedState::Available(st) ==> ((trim_chars(st.pin_hash@).len()
                > 0 && (match st.locked_until {
                Some(until) => until > now,
                None => false,
            })) ==> (r == (SignalPinVerifyResult::LockedOut {
                remaining_minutes: spec_minutes_until(now, st.locked_until->Some_0) as u32,
            }) && *final(self) == *old(self))),
            old(self).state matches LoadedState::Available(st) ==> ((trim_chars(st.pin_hash@).len()
                > 0 && (match st.locked_until {
                Some(until) => until <= now,
                None => true,
            }) && argon2_matches(pin@, st.pin_hash@)) ==> {
                &&& final(self).state matches LoadedState::Available(st2)
                &&& st2.failed_attempts == 0
                &&& st2.locked_until is None
                &&& st2.verification_count == (if st.verification_count == u32::MAX {
                    u32::MAX as int
                } else {
                    st.verification_count + 1
                })
                &&& st2.last_verified_at == Some(now)
                &&& st2.next_verify_at == Some(
                    (now + (spec_interval_days(
                        old(self).policy,
                        st2.verification_count as u32,
                    ) as int) * 86400) as i64,
                )
                &&& st2.last_reminder_at is None
                &&& st2.pin_hash == st.pin_hash
                &&& r == (SignalPinVerifyResult::Verified {
                    next_verify_at: st2.next_verify_at->Some_0,
                })
            }),
            old(self).state matches LoadedState::Available(st) ==> ((trim_chars(st.pin_hash@).len()
                > 0 && (match st.locked_until {
                Some(until) => until <= now,
                None => true,
            }) && !argon2_matches(pin@, st.pin_hash@)) ==> {
                &&& final(self).state matches LoadedState::Available(st2)
                &&& st2.pin_hash == st.pin_hash
                &&& ({
                    let bumped = if st.failed_attempts == u32::MAX {
                        u32::MAX as int
                    } else {
                        st.failed_attempts + 1int
                    };
                    if bumped >= old(self).policy.pin_max_failed_attempts {
                        &&& st2.failed_attempts == old(self).policy.pin_max_failed_attempts
                        &&& st2.locked_until == Some(
                            (now + (old(self).policy.pin_lockout_minutes as int) * 60) as i64,
                        )
                        &&& r == (SignalPinVerifyResult::LockedOut {
                            remaining_minutes: old(self).policy.pin_lockout_minutes,
                        })
                    } else {
                        &&& st2.failed_attempts == bumped
                        &&& st2.locked_until == st.locked_until
                        &&& r == (SignalPinVerifyResult::Incorrect {
                            remaining_attempts: (old(self).policy.pin_max_failed_attempts
                                - bumped) as u32,
                            lockout_minutes: old(self).policy.pin_lockout_minutes,
                        })
                    }
                })
            }),
    {
        let state = match &self.state {
            LoadedState::Missing => {
                return SignalPinVerifyResult::NotConfigured;
            },
            LoadedState::Corrupt => {
                return SignalPinVerifyResult::CorruptState;
            },
            LoadedState::Available(st) => st,
        };
        if str_trim(state.pin_hash.as_str()).unicode_len() == 0 {
            return SignalPinVerifyResult::NotConfigured;
        }
        match state.locked_until {
            Some(until) => {
                if until > now {
                    return SignalPinVerifyResult::LockedOut {
                        remaining_minutes: minutes_until(now, until),
                    };
                }
            },
            None => {},
        }
        if verify_pin_against_hash(pin, state.pin_hash.as_str()) {
            let new_count = if state.verification_count == u32::MAX {
                u32::MAX
            } else {
                state.verification_count + 1
            };
            let interval_days = self.next_interval_days_after_count(new_count);
            let next_at = now + (interval_days as i64) * 86400;
            let st2 = SignalPinState {
                pin_hash: state.pin_hash.clone(),
                last_verified_at: Some(now),
                verification_count: new_count,
                next_verify_at: Some(next_at),
                failed_attempts: 0,
                locked_until: None,
                last_reminder_at: None,
            };
            self.state = LoadedState::Available(st2);
            return SignalPinVerifyResult::Verified { next_verify_at: next_at };
        }
        let bumped = if state.failed_attempts == u32::MAX {
            u32::MAX
        } else {
            state.failed_attempts + 1
        };
        if bumped >= self.policy.pin_max_failed_attempts {
            let lockout_minutes = self.policy.pin_lockout_minutes;
            let st2 = SignalPinState {
                pin_hash: state.pin_hash.clone(),
                last_verified_at: state.last_verified_at,
                verification_count: state.verification_count,
                next_verify_at: state.next_verify_at,
                failed_attempts: self.policy.pin_max_failed_attempts,
                locked_until: Some(now + (lockout_minutes as i64) * 60),
                last_reminder_at: state.last_reminder_at,
            };
            self.state = LoadedState::Available(st2);
            return SignalPinVerifyResult::LockedOut { remaining_minutes: lockout_minutes };
        }
        let remaining = self.policy.pin_max_failed_attempts - bumped;
        let lockout_minutes = self.policy.pin_lockout_minutes;
        let st2 = SignalPinState {
            pin_hash: state.pin_hash.clone(),
            last_verified_at: state.last_verified_at,
            verification_count: state.verification_count,
            next_verify_at: state.next_verify_at,
            failed_attempts: bumped,
            locked_until: state.locked_until,
            last_reminder_at: state.last_reminder_at,
        };
        self.state = LoadedState::Available(st2);
        SignalPinVerifyResult::Incorrect { remaining_attempts: remaining, lockout_minutes }
    }

    /// The reminder to emit, if the schedule is inside the reminder window
    /// and none was emitted in this window yet.
    pub open spec fn spec_reminder(&self, st: SignalPinState, now: i64) -> Option<u64> {
        if self.policy.pin_reminder_hours_before == 0 {
            None
        } else {
            match st.next_verify_at {
                Some(next_at) => if next_at <= now {
                    None
                } else {
                    let window_start = next_at - (self.policy.pin_reminder_hours_before as int)
                        * 3600;
                    if now < window_start {
                        None
                    } else if (match st.last_reminder_at {
                        Some(last) => last >= window_start,
                        None => false,
                    }) {
                        None
                    } else {
                        let hours = ((next_at - now) + 3599) / 3600;
                        Some((if hours < 1 { 1int } else { hours }) as u64)
                    }
                },
                None => None,
            }
        }
    }

    /// The admission status at a given time. With verification disabled the
    /// status is open. Missing state, a blank hash and corrupt state lock
    /// it (fail closed); a running lockout and an expired schedule
    /// lock it too; otherwise it is open, with a reminder inside the
    /// pre-expiry window that has not been reminded yet.
    pub fn gate_status_at(&self, now: i64) -> (r: SignalPinGateStatus)
        requires
            0 <= now,
        ensures
            !self.policy.pin_verification ==> r == (SignalPinGateStatus::Open {
                reminder: None,
            }),
            (self.policy.pin_verification && self.state is Missing) ==> r
                == (SignalPinGateStatus::Locked { reason: SignalPinLockReason::NotConfigured }),
            (self.policy.pin_verification && self.state is Corrupt) ==> r
                == (SignalPinGateStatus::Locked { reason: SignalPinLockReason::CorruptState }),
            self.state matches LoadedState::Available(st) ==> (self.policy.pin_verification ==> r
                == (if trim_chars(st.pin_hash@).len() == 0 {
                SignalPinGateStatus::Locked { reason: SignalPinLockReason::NotConfigured }
            } else if (match st.locked_until {
                Some(until) => until > now,
                None => false,
            }) {
                SignalPinGateStatus::Locked { reason: SignalPinLockReason::LockedOut }
            } else if st.next_verify_at is None {
                SignalPinGateStatus::Locked { reason: SignalPinLockReason::NotConfigured }
            } else if st.next_verify_at->Some_0 <= now {
                SignalPinGateStatus::Locked { reason: SignalPinLockReason::Expired }
            } else {
                SignalPinGateStatus::Open {
                    reminder: (match self.spec_reminder(st, now) {
                        Some(h) => Some(SignalPinReminder { hours_remaining: h }),
                        None => None,
                    }),
                }
            })),
    {
        if !self.policy.pin_verification {
            return SignalPinGateStatus::Open { reminder: None };
        }
        let state = match &self.state {
            LoadedState::Missing => {
                return SignalPinGateStatus::Locked { reason: SignalPinLockReason::NotConfigured };
            },
            LoadedState::Corrupt => {
                return SignalPinGateStatus::Locked { reason: SignalPinLockReason::CorruptState };
            },
            LoadedState::Available(st) => st,
        };
        if str_trim(state.pin_hash.as_str()).unicode_len() == 0 {
            return SignalPinGateStatus::Locked { reason: SignalPinLockReason::NotConfigured };
        }
        match state.locked_until {
            Some(until) => {
                if until > now {
                    return SignalPinGateStatus::Locked { reason: SignalPinLockReason::LockedOut };
                }
            },
            None => {},
        }
        let next_verify_at = match state.next_verify_at {
            Some(v) => v,
            None => {
                return SignalPinGateStatus::Locked { reason: SignalPinLockReason::NotConfigured };
            },
        };
        if next_verify_at <= now {
            return SignalPinGateStatus::Locked { reason: SignalPinLockReason::Expired };
        }
        let reminder = self.reminder_hours_remaining(state, now);
        let reminder = match reminder {
            Some(hours_remaining) => Some(SignalPinReminder { hours_remaining }),
            None => None,
        };
        SignalPinGateStatus::Open { reminder }
    }

    /// Hours remaining before the next verification, when a reminder is
    /// due now.
    fn reminder_hours_remaining(&self, state: &SignalPinState, now: i64) -> (r: Option<u64>)
        requires
            0 <= now,
        ensures
            r == self.spec_reminder(*state, now),
    {
        if self.policy.pin_reminder_hours_before == 0 {
            return None;
        }
        let next_verify_at = match state.next_verify_at {
            Some(v) => v,
            None => {
                return None;
            },
        };
        if next_verify_at <= now {
            return None;
        }
        let window: i64 = (self.policy.pin_reminder_hours_before as i64) * 3600;
        proof {
            assert(window <= 0xffffffffi64 * 3600);
        }
        let reminder_start = if next_verify_at >= i64::MIN + window {
            next_verify_at - window
        } else {
            i64::MIN
        };
        proof {
            assert(next_verify_at - window >= i64::MIN + window - window);
        }
        if now < reminder_start {
            return None;
        }
        let already = match state.last_reminder_at {
            Some(last) => last >= reminder_start,
            None => false,
        };
        if already {
            return None;
        }
        let secs_remaining = next_verify_at - now;
        let hours = (secs_remaining + 3599) / 3600;
        let hours = if hours < 1 {
            1
        } else {
            hours
        };
        Some(hours as u64)
    }

    /// Record that the reminder for the current window was sent.
    pub fn mark_reminder_sent_at(&mut self, now: i64)
        ensures
            final(self).policy == old(self).policy,
            final(self).state_path == old(self).state_path,
            final(self).secrets_encrypt == old(self).secrets_encrypt,
            old(self).state matches LoadedState::Available(st) ==> (final(self).state
                matches LoadedState::Available(st2) && st2 == (SignalPinState {
                last_reminder_at: Some(now),
                ..st
            }) && final(self).policy == old(self).policy),
            !(old(self).state is Available) ==> *final(self) == *old(self),
    {
        match &self.state {
            LoadedState::Available(st) => {
                let st2 = SignalPinState {
                    pin_hash: st.pin_hash.clone(),
                    last_verified_at: st.last_verified_at,
                    verification_count: st.verification_count,
                    next_verify_at: st.next_verify_at,
                    failed_attempts: st.failed_attempts,
                    locked_until: st.locked_until,
                    last_reminder_at: Some(now),
                };
                self.state = LoadedState::Available(st2);
            },
            _ => {},
        }
    }

    /// A full status report at a given time, mirroring the admission rules.
    pub fn status_at(&self, now: i64) -> (r: SignalPinStatus)
        requires
            0 <= now <= i64::MAX - 60,
        ensures
            r.verification_enabled == self.policy.pin_verification,
            r.state_path@ == self.state_path@,
            self.state is Missing ==> (r.locked == self.policy.pin_verification && !r.configured),
            self.state is Corrupt ==> (r.lock_reason == Some(SignalPinLockReason::CorruptState)
                && r.locked == self.policy.pin_verification && !r.configured),
            self.state matches LoadedState::Available(st) ==> {
                &&& r.configured == (trim_chars(st.pin_hash@).len() > 0)
                &&& r.last_verified_at == st.last_verified_at
                &&& r.next_verify_at == st.next_verify_at
                &&& r.verification_count == st.verification_count
                &&& r.failed_attempts == st.failed_attempts
                &&& (!self.policy.pin_verification ==> !r.locked && r.lock_reason is None)
                &&& ((self.policy.pin_verification && (match st.locked_until {
                    Some(until) => until > now,
                    None => false,
                })) ==> (r.locked && r.lock_reason == Some(SignalPinLockReason::LockedOut)
                    && r.lockout_remaining_minutes == Some(
                    spec_minutes_until(now, st.locked_until->Some_0) as u32,
                )))
            },
    {
        let mut status = SignalPinStatus {
            verification_enabled: self.policy.pin_verification,
            state_path: self.state_path.clone(),
            configured: false,
            locked: self.policy.pin_verification,
            lock_reason: if self.policy.pin_verification {
                Some(SignalPinLockReason::NotConfigured)
            } else {
                None
            },
            lockout_remaining_minutes: None,
            last_verified_at: None,
            next_verify_at: None,
            verification_count: 0,
            failed_attempts: 0,
        };
        match &self.state {
            LoadedState::Missing => {
                if !self.policy.pin_verification {
                    status.locked = false;
                    status.lock_reason = None;
                }
            },
            LoadedState::Corrupt => {
                status.lock_reason = Some(SignalPinLockReason::CorruptState);
            },
            LoadedState::Available(st) => {
                status.configured = str_trim(st.pin_hash.as_str()).unicode_len() > 0;
                status.last_verified_at = st.last_verified_at;
                status.next_verify_at = st.next_verify_at;
                status.verification_count = st.verification_count;
                status.failed_attempts = st.failed_attempts;
                if !self.policy.pin_verification {
                    status.locked = false;
                    status.lock_reason = None;
                    return status;
                }
                let mut locked_out = false;
                match st.locked_until {
                    Some(until) => {
                        if until > now {
                            status.locked = true;
                            status.lock_reason = Some(SignalPinLockReason::LockedOut);
                            status.lockout_remaining_minutes = Some(minutes_until(now, until));
                            locked_out = true;
                        }
                    },
                    None => {},
                }
                if !locked_out {
                    match st.next_verify_at {
                        Some(next_verify_at) => {
                            if next_verify_at <= now {
                                status.locked = true;
                                status.lock_reason = Some(SignalPinLockReason::Expired);
                            } else {
                                status.locked = false;
                                status.lock_reason = None;
                            }
                        },
                        None => {
                            status.locked = true;
                            status.lock_reason = Some(SignalPinLockReason::NotConfigured);
                        },
                    }
                }
            },
        }
        status
    }
}

} // verus!
