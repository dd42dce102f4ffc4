//! Records whose only write policy is the time stamp: groups, organisations,
//! files, tokens, roles and memberships.

use vstd::prelude::*;
use crate::active_value::ActiveValue;
use crate::rejection::RejectionReason;
use crate::timestamp::Timestamp;

verus! {

/// The time stamps of a pending change.
#[derive(Clone, Debug, PartialEq, Eq)]
pub struct ActiveModel {
    pub created_at: ActiveValue<Timestamp>,
    pub updated_at: ActiveValue<Timestamp>,
}

impl ActiveModel {
    /// The stamps as they are handed to storage at `now`: an insert is
    /// created and updated at `now`, an update is updated at `now`.
    pub open spec fn finalized(self, insert: bool, now: Timestamp) -> ActiveModel {
        ActiveModel {
            created_at: if insert {
                ActiveValue::Assigned(now)
            } else {
                self.created_at
            },
            updated_at: ActiveValue::Assigned(now),
        }
    }

    /// The stamps of a record created at `now`.
    pub fn new(now: Timestamp) -> (r: ActiveModel)
        ensures
            r == (ActiveModel {
                created_at: ActiveValue::Assigned(now),
                updated_at: ActiveValue::Assigned(now),
            }),
    {
        ActiveModel { created_at: ActiveValue::Assigned(now), updated_at: ActiveValue::Assigned(now) }
    }

    /// Applies the write policy to the stamps.
    pub fn before_save(self, insert: bool, now: Timestamp) -> (r: Result<ActiveModel, RejectionReason>)
        ensures
            r == Ok::<ActiveModel, RejectionReason>(self.finalized(insert, now)),
    {
        let mut change = self;
        if insert {
            change.created_at = ActiveValue::Assigned(now);
        }
        change.updated_at = ActiveValue::Assigned(now);
        Ok(change)
    }
}

} // verus!
