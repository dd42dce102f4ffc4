//! The tunable numbers of the write policy.

use vstd::prelude::*;
use crate::timestamp::Timestamp;

verus! {

/// Lengths, durations and thresholds that the rules use.
#[derive(Clone, Copy, Debug, PartialEq, Eq, Structural)]
pub struct PolicyConfig {
    /// Cost factor of the adaptive password hash.
    pub bcrypt_cost: u32,
    /// Characters in an API access key.
    pub api_access_key_size: usize,
    /// Characters in an API secret key.
    pub api_secret_key_size: usize,
    /// Characters in a login-link token.
    pub link_hash_size: usize,
    /// Minutes for which a login link stays valid.
    pub link_valid_mins: u32,
    /// Characters in a password-reset string.
    pub pass_reset_str_size: usize,
    /// Password-reset codes are drawn from `1..pass_reset_code_limit`.
    pub pass_reset_code_limit: u32,
    /// Hours for which a password reset stays valid.
    pub pass_reset_valid_hours: u32,
    /// Failed logins that an unlocked account tolerates.
    pub max_login_attempts: u16,
    /// Minutes for which an account stays temporarily locked.
    pub locked_duration_mins: u32,
}

impl PolicyConfig {
    /// The configuration that `default` returns.
    pub open spec fn standard() -> PolicyConfig {
        PolicyConfig {
            bcrypt_cost: 12,
            api_access_key_size: 64,
            api_secret_key_size: 64,
            link_hash_size: 256,
            link_valid_mins: 10,
            pass_reset_str_size: 128,
            pass_reset_code_limit: 99_999_999,
            pass_reset_valid_hours: 24,
            max_login_attempts: 10,
            locked_duration_mins: 60,
        }
    }

    /// Reset codes can be drawn: their range is not empty.
    pub open spec fn is_valid(self) -> bool {
        1 < self.pass_reset_code_limit
    }

    /// Tests `is_valid`.
    pub fn check_valid(&self) -> (r: bool)
        ensures
            r == self.is_valid(),
    {
        1 < self.pass_reset_code_limit
    }
}

impl Default for PolicyConfig {
    fn default() -> (r: PolicyConfig)
        ensures
            r == PolicyConfig::standard(),
    {
        PolicyConfig {
            bcrypt_cost: 12,
            api_access_key_size: 64,
            api_secret_key_size: 64,
            link_hash_size: 256,
            link_valid_mins: 10,
            pass_reset_str_size: 128,
            pass_reset_code_limit: 99_999_999,
            pass_reset_valid_hours: 24,
            max_login_attempts: 10,
            locked_duration_mins: 60,
        }
    }
}

} // verus!
