use vstd::prelude::*;
use vstd::string::StringExecFns;
use crate::crypto::{TokenEncryption, decrypt_of, verify_device_fingerprint};
use crate::schema::SubscriptionState;
use crate::store::str_of;
use crate::textutil::str_eq;

verus! {

broadcast use vstd::string::group_string_axioms;

/// The number of seconds in a day, for grace-period arithmetic.
pub const SECONDS_PER_DAY: i64 = 86_400;

/// Whether a stored subscription is good at the given moment: an active
/// one always is; a past-due, canceled or expired one only inside its
/// grace period; any other status never.
pub open spec fn spec_status_valid(state: SubscriptionState, now: i64) -> bool {
    if state.subscription_status@ == "active"@ {
        true
    } else if state.subscription_status@ == "past_due"@ || state.subscription_status@
        == "canceled"@ || state.subscription_status@ == "expired"@ {
        state.grace_period_ends_at matches Some(end) && now < end
    } else {
        false
    }
}

/// All subscription-related validation over one stored state.
pub struct SubscriptionValidator {
    state: Option<SubscriptionState>,
}

impl SubscriptionValidator {
    pub closed spec fn spec_state(self) -> Option<SubscriptionState> {
        self.state
    }

    /// A validator over a given state.
    pub fn from_state(state: SubscriptionState) -> (r: SubscriptionValidator)
        ensures
            r.spec_state() == Some(state),
    {
        SubscriptionValidator { state: Some(state) }
    }

    /// A validator with no stored subscription.
    pub fn empty() -> (r: SubscriptionValidator)
        ensures
            r.spec_state() is None,
    {
        SubscriptionValidator { state: None }
    }

    /// The stored state, if any.
    pub fn get_state(&self) -> (r: Option<&SubscriptionState>)
        ensures
            match r {
                Some(s) => self.spec_state() == Some(*s),
                None => self.spec_state() is None,
            },
    {
        self.state.as_ref()
    }

    /// The stored status name, or `unknown` without a state.
    pub fn get_status(&self) -> (r: &str)
        ensures
            match self.spec_state() {
                Some(s) => r@ == s.subscription_status@,
                None => r@ == "unknown"@,
            },
    {
        match &self.state {
            Some(s) => s.subscription_status.as_str(),
            None => "unknown",
        }
    }

    /// Whether the status alone is good at the given moment, ignoring the
    /// device binding.
    pub fn is_status_valid(&self, state: &SubscriptionState, now: i64) -> (r: bool)
        ensures
            r == spec_status_valid(*state, now),
    {
        let status = state.subscription_status.as_str();
        if str_eq(status, "active") {
            true
        } else if str_eq(status, "past_due") || str_eq(status, "canceled")
            || str_eq(status, "expired") {
            match state.grace_period_ends_at {
                Some(end) => now < end,
                None => false,
            }
        } else {
            false
        }
    }

    /// Whether the subscription is good now: a state must be stored, it
    /// must be bound to this device, and its status must be valid. The
    /// caller supplies the device's current fingerprint and the clock.
    pub fn is_subscription_valid(&self, current_fingerprint: &str, now: i64) -> (r: bool)
        ensures
            r == (self.spec_state() matches Some(s) && s.device_fingerprint@
                == current_fingerprint@ && spec_status_valid(s, now)),
    {
        let state = match &self.state {
            Some(s) => s,
            None => {
                return false;
            },
        };
        if !verify_device_fingerprint(state.device_fingerprint.as_str(), current_fingerprint) {
            return false;
        }
        self.is_status_valid(state, now)
    }

    /// Why access is locked, if it is: nothing while the subscription is
    /// valid or still in grace; afterwards the message that fits the
    /// stored status.
    pub fn get_lockout_reason(&self, current_fingerprint: &str, now: i64)
        -> (r: Option<String>)
        ensures
            self.spec_state() is None ==> r is None,
            match self.spec_state() {
                Some(s) => if s.device_fingerprint@ == current_fingerprint@
                    && spec_status_valid(s, now) {
                    r is None
                } else {
                    let grace = match s.grace_period_ends_at {
                        Some(g) => g,
                        None => 0,
                    };
                    if now < grace {
                        r is None
                    } else {
                        r matches Some(m) && m@ == spec_lockout_message(
                            s.subscription_status@,
                        )
                    }
                },
                None => true,
            },
    {
        if self.is_subscription_valid(current_fingerprint, now) {
            return None;
        }
        let state = match &self.state {
            Some(s) => s,
            None => {
                return None;
            },
        };
        let grace_end: i64 = match state.grace_period_ends_at {
            Some(g) => g,
            None => 0,
        };
        if now < grace_end {
            None
        } else {
            let status = state.subscription_status.as_str();
            let msg = if str_eq(status, "past_due") {
                str_of("Subscription payment past due. Please update your payment method.")
            } else if str_eq(status, "canceled") {
                str_of("Subscription canceled. Data access is locked.")
            } else if str_eq(status, "expired") {
                str_of("Subscription expired. Please renew to continue.")
            } else {
                str_of("Subscription not active. Please subscribe to continue.")
            };
            Some(msg)
        }
    }

    /// How many whole days of grace remain, never negative; nothing
    /// without a state or a grace period.
    pub fn get_grace_period_days_remaining(&self, now: i64) -> (r: Option<i64>)
        requires
            now >= 0,
        ensures
            match self.spec_state() {
                Some(s) => match s.grace_period_ends_at {
                    Some(end) => r == Some(
                        if end - now <= 0 {
                            0i64
                        } else {
                            ((end - now) / (SECONDS_PER_DAY as int)) as i64
                        },
                    ),
                    None => r is None,
                },
                None => r is None,
            },
    {
        let state = match &self.state {
            Some(s) => s,
            None => {
                return None;
            },
        };
        let end = match state.grace_period_ends_at {
            Some(e) => e,
            None => {
                return None;
            },
        };
        if end <= now {
            Some(0)
        } else {
            Some((end - now) / SECONDS_PER_DAY)
        }
    }

    /// Unseals the stored token, after checking the device binding; the
    /// caller supplies the device's current fingerprint.
    pub fn decrypt_token(&self, current_fingerprint: &str) -> (r: Result<String, String>)
        ensures
            self.spec_state() is None ==> (r matches Err(m) && m@
                == "No subscription state found"@),
            match self.spec_state() {
                Some(s) => if s.device_fingerprint@ != current_fingerprint@ {
                    r matches Err(m) && m@ == "Device fingerprint mismatch"@
                } else {
                    match (r, decrypt_of(s.device_fingerprint@, s.encrypted_token@)) {
                        (Ok(t), Some(v)) => t@ == v,
                        (Err(_), None) => true,
                        _ => false,
                    }
                },
                None => true,
            },
    {
        let state = match &self.state {
            Some(s) => s,
            None => {
                return Err(str_of("No subscription state found"));
            },
        };
        if !verify_device_fingerprint(state.device_fingerprint.as_str(), current_fingerprint) {
            return Err(str_of("Device fingerprint mismatch"));
        }
        let encryption = TokenEncryption::from_device_fingerprint(
            state.device_fingerprint.as_str(),
        );
        encryption.decrypt_token(state.encrypted_token.as_str())
    }
}

/// The standing lockout message for each stored status.
pub open spec fn spec_lockout_message(status: Seq<char>) -> Seq<char> {
    if status == "past_due"@ {
        "Subscription payment past due. Please update your payment method."@
    } else if status == "canceled"@ {
        "Subscription canceled. Data access is locked."@
    } else if status == "expired"@ {
        "Subscription expired. Please renew to continue."@
    } else {
        "Subscription not active. Please subscribe to continue."@
    }
}

/// Whether a stored token is old enough (23 hours) that renewal is due.
pub fn should_renew_token_at(state: &SubscriptionState, now: i64) -> (r: bool)
    requires
        now - state.token_issued_at < i64::MAX,
        state.token_issued_at <= now || now - state.token_issued_at > i64::MIN,
    ensures
        r == (now - state.token_issued_at > 23 * 3600),
{
    now - state.token_issued_at > 23 * 3600
}

} // verus!
