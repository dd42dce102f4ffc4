//! User accounts and their lockout after failed logins.

use vstd::prelude::*;
use crate::active_value::ActiveValue;
use crate::config::PolicyConfig;
use crate::expiry::{expiry_for, expiry_of, ExpiryKind};
use crate::ident::{is_random_id, new_v4};
use crate::rejection::RejectionReason;
use crate::timestamp::Timestamp;

verus! {

/// Whether an account may log in.
#[derive(Clone, Copy, Debug, PartialEq, Eq, Structural)]
pub enum LockedState {
    /// Logins are accepted.
    Unlocked,
    /// Logins are refused until the failed-login counter is reset.
    TemporarilyLocked,
    /// Logins are refused for good; no counter write changes that.
    PermanentlyLocked,
}

/// What a write of the failed-login counter does to the lock.
#[derive(Clone, Copy, Debug, PartialEq, Eq, Structural)]
pub enum LockoutAction {
    /// The lock stays as it is.
    Keep,
    /// The account becomes temporarily locked.
    Lock,
    /// The account becomes unlocked.
    Unlock,
}

impl LockedState {
    /// The effect of writing `attempts` to the failed-login counter of an
    /// account in this state, with `threshold` tolerated failures.
    ///
    /// Going over the threshold locks an unlocked account; only a reset to
    /// zero unlocks a temporarily locked one; a permanent lock stays.
    pub open spec fn on_counter(self, attempts: u16, threshold: u16) -> LockoutAction {
        match self {
            LockedState::Unlocked => if attempts > threshold {
                LockoutAction::Lock
            } else {
                LockoutAction::Keep
            },
            LockedState::TemporarilyLocked => if attempts == 0 {
                LockoutAction::Unlock
            } else {
                LockoutAction::Keep
            },
            LockedState::PermanentlyLocked => LockoutAction::Keep,
        }
    }

    /// The state after `action`.
    pub open spec fn after(self, action: LockoutAction) -> LockedState {
        match action {
            LockoutAction::Keep => self,
            LockoutAction::Lock => LockedState::TemporarilyLocked,
            LockoutAction::Unlock => LockedState::Unlocked,
        }
    }

    /// The effect of writing `attempts` to the failed-login counter.
    pub fn counter_written(self, attempts: u16, threshold: u16) -> (action: LockoutAction)
        ensures
            action == self.on_counter(attempts, threshold),
    {
        match self {
            LockedState::PermanentlyLocked => LockoutAction::Keep,
            LockedState::Unlocked => {
                if attempts > threshold {
                    LockoutAction::Lock
                } else {
                    LockoutAction::Keep
                }
            },
            LockedState::TemporarilyLocked => {
                if attempts == 0 {
                    LockoutAction::Unlock
                } else {
                    LockoutAction::Keep
                }
            },
        }
    }
}

/// A pending change to a user account.
#[derive(Clone, Debug, PartialEq, Eq)]
pub struct ActiveModel {
    pub id: ActiveValue<u128>,
    pub invalid_login_attempts: ActiveValue<u16>,
    pub locked_state: ActiveValue<LockedState>,
    pub locked_state_updated_at: ActiveValue<Timestamp>,
    pub locked_state_expires_at: ActiveValue<Option<Timestamp>>,
    pub last_login_at: ActiveValue<Option<Timestamp>>,
    pub pki_key_id: ActiveValue<u128>,
    pub created_at: ActiveValue<Timestamp>,
    pub updated_at: ActiveValue<Timestamp>,
}

impl ActiveModel {
    /// What the change does to the lock: the counter decides, on an update
    /// that writes it, when the account's lock state is known.
    pub open spec fn lockout_action(self, insert: bool, cfg: PolicyConfig) -> LockoutAction {
        if insert {
            LockoutAction::Keep
        } else {
            match (self.invalid_login_attempts, self.locked_state.value()) {
                (ActiveValue::Assigned(attempts), Some(state)) => state.on_counter(
                    attempts,
                    cfg.max_login_attempts,
                ),
                _ => LockoutAction::Keep,
            }
        }
    }

    /// The clock allows the change to be saved at `now`: if it locks the
    /// account, the lock's expiry is representable.
    pub open spec fn savable(self, insert: bool, now: Timestamp, cfg: PolicyConfig) -> bool {
        self.lockout_action(insert, cfg) == LockoutAction::Lock ==> now.can_advance(
            ExpiryKind::Lockout.window_minutes(cfg),
        )
    }

    /// The change as it is handed to storage at `now`: stamped, and with the
    /// lock moved as the counter decides. A new lock expires one lock
    /// duration after `now`; an unlocked account has no expiry.
    pub open spec fn finalized(self, insert: bool, now: Timestamp, cfg: PolicyConfig) -> ActiveModel {
        let action = self.lockout_action(insert, cfg);
        ActiveModel {
            locked_state: match action {
                LockoutAction::Keep => self.locked_state,
                LockoutAction::Lock => ActiveValue::Assigned(LockedState::TemporarilyLocked),
                LockoutAction::Unlock => ActiveValue::Assigned(LockedState::Unlocked),
            },
            locked_state_expires_at: match action {
                LockoutAction::Keep => self.locked_state_expires_at,
                LockoutAction::Lock => ActiveValue::Assigned(
                    Some(expiry_of(ExpiryKind::Lockout, now, cfg)),
                ),
                LockoutAction::Unlock => ActiveValue::Assigned(None),
            },
            locked_state_updated_at: match action {
                LockoutAction::Keep => self.locked_state_updated_at,
                _ => ActiveValue::Assigned(now),
            },
            created_at: if insert {
                ActiveValue::Assigned(now)
            } else {
                self.created_at
            },
            updated_at: ActiveValue::Assigned(now),
            ..self
        }
    }

    /// A change that creates an account: identified by `id`, never logged in,
    /// with no failed login, created at `now`.
    pub open spec fn created(id: u128, now: Timestamp) -> ActiveModel {
        ActiveModel {
            id: ActiveValue::Assigned(id),
            invalid_login_attempts: ActiveValue::Assigned(0),
            locked_state: ActiveValue::NotSet,
            locked_state_updated_at: ActiveValue::NotSet,
            locked_state_expires_at: ActiveValue::NotSet,
            last_login_at: ActiveValue::Assigned(None),
            pki_key_id: ActiveValue::NotSet,
            created_at: ActiveValue::Assigned(now),
            updated_at: ActiveValue::Assigned(now),
        }
    }

    /// A change that creates an account with a fresh identifier at `now`.
    pub fn new(now: Timestamp) -> (r: ActiveModel)
        ensures
            r.id is Assigned && is_random_id(r.id->Assigned_0),
            r == ActiveModel::created(r.id->Assigned_0, now),
    {
        ActiveModel {
            id: ActiveValue::Assigned(new_v4()),
            invalid_login_attempts: ActiveValue::Assigned(0),
            locked_state: ActiveValue::NotSet,
            locked_state_updated_at: ActiveValue::NotSet,
            locked_state_expires_at: ActiveValue::NotSet,
            last_login_at: ActiveValue::Assigned(None),
            pki_key_id: ActiveValue::NotSet,
            created_at: ActiveValue::Assigned(now),
            updated_at: ActiveValue::Assigned(now),
        }
    }

    /// What the change does to the lock.
    pub fn action(&self, insert: bool, cfg: &PolicyConfig) -> (action: LockoutAction)
        ensures
            action == self.lockout_action(insert, *cfg),
    {
        if insert {
            return LockoutAction::Keep;
        }
        match (&self.invalid_login_attempts, self.locked_state.get()) {
            (ActiveValue::Assigned(attempts), Some(state)) => state.counter_written(
                *attempts,
                cfg.max_login_attempts,
            ),
            _ => LockoutAction::Keep,
        }
    }

    /// Tests whether the clock allows the change to be saved at `now`.
    pub fn can_save(&self, insert: bool, now: Timestamp, cfg: &PolicyConfig) -> (r: bool)
        ensures
            r == self.savable(insert, now, *cfg),
    {
        match self.action(insert, cfg) {
            LockoutAction::Lock => now.check_can_advance(ExpiryKind::Lockout.minutes(cfg)),
            _ => true,
        }
    }

    /// Applies the write policy to the change: stamps it with `now` and, on an
    /// update that writes the failed-login counter, moves the lock.
    pub fn before_save(self, insert: bool, now: Timestamp, cfg: &PolicyConfig) -> (r: Result<
        ActiveModel,
        RejectionReason,
    >)
        requires
            self.savable(insert, now, *cfg),
        ensures
            r == Ok::<ActiveModel, RejectionReason>(self.finalized(insert, now, *cfg)),
    {
        let action = self.action(insert, cfg);
        let mut change = self;
        if insert {
            change.created_at = ActiveValue::Assigned(now);
        }
        change.updated_at = ActiveValue::Assigned(now);
        match action {
            LockoutAction::Keep => {},
            LockoutAction::Lock => {
                change.locked_state = ActiveValue::Assigned(LockedState::TemporarilyLocked);
                change.locked_state_expires_at = ActiveValue::Assigned(
                    Some(expiry_for(ExpiryKind::Lockout, now, cfg)),
                );
                change.locked_state_updated_at = ActiveValue::Assigned(now);
            },
            LockoutAction::Unlock => {
                change.locked_state = ActiveValue::Assigned(LockedState::Unlocked);
                change.locked_state_expires_at = ActiveValue::Assigned(None);
                change.locked_state_updated_at = ActiveValue::Assigned(now);
            },
        }
        Ok(change)
    }
}

/// Writing a counter of zero to an unlocked account leaves the lock, its
/// expiry and the time of its last change as they were.
pub proof fn lemma_zero_counter_keeps_unlocked(
    change: ActiveModel,
    insert: bool,
    now: Timestamp,
    cfg: PolicyConfig,
)
    requires
        change.invalid_login_attempts == ActiveValue::Assigned(0u16),
        change.locked_state.value() == Some(LockedState::Unlocked),
    ensures
        change.lockout_action(insert, cfg) == LockoutAction::Keep,
        change.finalized(insert, now, cfg).locked_state == change.locked_state,
        change.finalized(insert, now, cfg).locked_state_expires_at
            == change.locked_state_expires_at,
        change.finalized(insert, now, cfg).locked_state_updated_at
            == change.locked_state_updated_at,
        change.finalized(insert, now, cfg).invalid_login_attempts == ActiveValue::Assigned(0u16),
{
}

/// An update that writes a counter above the threshold to an unlocked
/// account locks it temporarily, from `now` until one lock duration later.
pub proof fn lemma_counter_over_threshold_locks(
    change: ActiveModel,
    attempts: u16,
    now: Timestamp,
    cfg: PolicyConfig,
)
    requires
        change.invalid_login_attempts == ActiveValue::Assigned(attempts),
        change.locked_state.value() == Some(LockedState::Unlocked),
        attempts > cfg.max_login_attempts,
        now.can_advance(ExpiryKind::Lockout.window_minutes(cfg)),
    ensures
        change.finalized(false, now, cfg).locked_state == ActiveValue::Assigned(
            LockedState::TemporarilyLocked,
        ),
        change.finalized(false, now, cfg).locked_state_updated_at == ActiveValue::Assigned(now),
        change.finalized(false, now, cfg).locked_state_expires_at matches ActiveValue::Assigned(
            Some(expiry),
        ) && expiry.secs == now.secs + 60 * cfg.locked_duration_mins && expiry.nanos == now.nanos,
{
}

/// With the standard configuration, the eleventh failed login locks an
/// unlocked account for sixty minutes, and the tenth does not.
pub proof fn lemma_standard_lock(change: ActiveModel, now: Timestamp)
    requires
        change.locked_state.value() == Some(LockedState::Unlocked),
        now.can_advance(60),
    ensures
        change.invalid_login_attempts == ActiveValue::Assigned(11u16) ==> {
            let saved = change.finalized(false, now, PolicyConfig::standard());
            &&& saved.locked_state == ActiveValue::Assigned(LockedState::TemporarilyLocked)
            &&& saved.locked_state_expires_at == ActiveValue::Assigned(
                Some(Timestamp { secs: (now.secs + 3600) as i64, nanos: now.nanos }),
            )
        },
        change.invalid_login_attempts == ActiveValue::Assigned(10u16) ==> change.finalized(
            false,
            now,
            PolicyConfig::standard(),
        ).locked_state == change.locked_state,
{
}

/// An update that writes a counter of zero to a temporarily locked account
/// unlocks it and clears the expiry of the lock.
pub proof fn lemma_zero_counter_unlocks(change: ActiveModel, now: Timestamp, cfg: PolicyConfig)
    requires
        change.invalid_login_attempts == ActiveValue::Assigned(0u16),
        change.locked_state.value() == Some(LockedState::TemporarilyLocked),
    ensures
        change.finalized(false, now, cfg).locked_state == ActiveValue::Assigned(
            LockedState::Unlocked,
        ),
        change.finalized(false, now, cfg).locked_state_expires_at == ActiveValue::Assigned(
            None::<Timestamp>,
        ),
        change.finalized(false, now, cfg).locked_state_updated_at == ActiveValue::Assigned(now),
{
}

/// No write of the counter moves a permanently locked account.
pub proof fn lemma_permanent_lock_stays(
    change: ActiveModel,
    insert: bool,
    now: Timestamp,
    cfg: PolicyConfig,
)
    requires
        change.locked_state.value() == Some(LockedState::PermanentlyLocked),
    ensures
        change.lockout_action(insert, cfg) == LockoutAction::Keep,
        change.finalized(insert, now, cfg).locked_state == change.locked_state,
        change.finalized(insert, now, cfg).locked_state_expires_at
            == change.locked_state_expires_at,
        change.finalized(insert, now, cfg).locked_state_updated_at
            == change.locked_state_updated_at,
{
}

/// The lock only ever moves from unlocked to temporarily locked or back:
/// whatever the counter, an account that is not temporarily locked before a
/// write is not unlocked by it, and one that is not unlocked is not locked.
pub proof fn lemma_lock_moves_between_two_states(state: LockedState, attempts: u16, threshold: u16)
    ensures
        state.on_counter(attempts, threshold) == LockoutAction::Lock ==> state
            == LockedState::Unlocked && attempts > threshold,
        state.on_counter(attempts, threshold) == LockoutAction::Unlock ==> state
            == LockedState::TemporarilyLocked && attempts == 0,
        state.after(state.on_counter(attempts, threshold)) == LockedState::PermanentlyLocked
            <==> state == LockedState::PermanentlyLocked,
{
}

} // verus!
