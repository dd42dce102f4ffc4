//! For how long a time-bound secret or a lock stays in force.

use vstd::prelude::*;
use crate::config::PolicyConfig;
use crate::timestamp::Timestamp;

verus! {

/// What an expiry is computed for.
#[derive(Clone, Copy, Debug, PartialEq, Eq, Structural)]
pub enum ExpiryKind {
    /// A login link.
    MagicLink,
    /// A password-reset code or string.
    PasswordReset,
    /// A temporary account lock.
    Lockout,
}

impl ExpiryKind {
    /// The validity window of this kind, in minutes.
    pub open spec fn window_minutes(self, cfg: PolicyConfig) -> int {
        match self {
            ExpiryKind::MagicLink => cfg.link_valid_mins as int,
            ExpiryKind::PasswordReset => 60 * cfg.pass_reset_valid_hours,
            ExpiryKind::Lockout => cfg.locked_duration_mins as int,
        }
    }

    /// The validity window of this kind, in minutes.
    pub fn minutes(self, cfg: &PolicyConfig) -> (m: u64)
        ensures
            m == self.window_minutes(*cfg),
    {
        match self {
            ExpiryKind::MagicLink => cfg.link_valid_mins as u64,
            ExpiryKind::PasswordReset => 60 * (cfg.pass_reset_valid_hours as u64),
            ExpiryKind::Lockout => cfg.locked_duration_mins as u64,
        }
    }
}

/// The instant at which something of `kind` issued at `issued_at` expires.
pub open spec fn expiry_of(kind: ExpiryKind, issued_at: Timestamp, cfg: PolicyConfig) -> Timestamp {
    issued_at.plus_minutes(kind.window_minutes(cfg))
}

/// The instant at which something of `kind` issued at `issued_at` expires:
/// the issue time plus the kind's fixed window.
pub fn expiry_for(kind: ExpiryKind, issued_at: Timestamp, cfg: &PolicyConfig) -> (expiry: Timestamp)
    requires
        issued_at.can_advance(kind.window_minutes(*cfg)),
    ensures
        expiry == expiry_of(kind, issued_at, *cfg),
        expiry.secs == issued_at.secs + 60 * kind.window_minutes(*cfg),
        expiry.nanos == issued_at.nanos,
        expiry.is_valid(),
{
    issued_at.advance(kind.minutes(cfg))
}

} // verus!
