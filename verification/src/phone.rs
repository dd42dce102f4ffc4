//! Phone numbers of users and organisations, and their verification.

use vstd::prelude::*;
use crate::active_value::ActiveValue;
use crate::ident::{is_random_id, new_v4};
use crate::rejection::RejectionReason;
use crate::timestamp::Timestamp;
use crate::verification::{mirror, mirrored};

verus! {

/// A pending change to a phone number.
#[derive(Clone, Debug, PartialEq, Eq)]
pub struct ActiveModel {
    pub id: ActiveValue<u128>,
    pub user_id: ActiveValue<Option<u128>>,
    pub organisation_profile_id: ActiveValue<Option<u128>>,
    pub needs_verification: ActiveValue<bool>,
    pub phone_country: ActiveValue<u32>,
    pub phone_number: ActiveValue<u32>,
    pub is_primary: ActiveValue<bool>,
    pub is_verified: ActiveValue<bool>,
    pub verification_code: ActiveValue<Option<String>>,
    pub verification_code_expires_at: ActiveValue<Option<Timestamp>>,
    pub verified_at: ActiveValue<Option<Timestamp>>,
    pub created_at: ActiveValue<Timestamp>,
    pub updated_at: ActiveValue<Timestamp>,
}

/// What an `ActiveModel` stands for: the same columns, with text as
/// sequences of characters.
pub struct ActiveModelView {
    pub id: ActiveValue<u128>,
    pub user_id: ActiveValue<Option<u128>>,
    pub organisation_profile_id: ActiveValue<Option<u128>>,
    pub needs_verification: ActiveValue<bool>,
    pub phone_country: ActiveValue<u32>,
    pub phone_number: ActiveValue<u32>,
    pub is_primary: ActiveValue<bool>,
    pub is_verified: ActiveValue<bool>,
    pub verification_code: ActiveValue<Option<Seq<char>>>,
    pub verification_code_expires_at: ActiveValue<Option<Timestamp>>,
    pub verified_at: ActiveValue<Option<Timestamp>>,
    pub created_at: ActiveValue<Timestamp>,
    pub updated_at: ActiveValue<Timestamp>,
}

impl View for ActiveModel {
    type V = ActiveModelView;

    open spec fn view(&self) -> ActiveModelView {
        ActiveModelView {
            id: self.id,
            user_id: self.user_id,
            organisation_profile_id: self.organisation_profile_id,
            needs_verification: self.needs_verification,
            phone_country: self.phone_country,
            phone_number: self.phone_number,
            is_primary: self.is_primary,
            is_verified: self.is_verified,
            verification_code: self.verification_code.deep_view(),
            verification_code_expires_at: self.verification_code_expires_at,
            verified_at: self.verified_at,
            created_at: self.created_at,
            updated_at: self.updated_at,
        }
    }
}

impl ActiveModelView {
    /// The change as it is handed to storage at `now`: stamped, and with the
    /// time of verification following a write of the verified flag.
    pub open spec fn finalized(self, insert: bool, now: Timestamp) -> ActiveModelView {
        ActiveModelView {
            verified_at: mirrored(self.is_verified, self.verified_at, now),
            created_at: if insert {
                ActiveValue::Assigned(now)
            } else {
                self.created_at
            },
            updated_at: ActiveValue::Assigned(now),
            ..self
        }
    }

    /// A change that creates a phone number identified by `id` at `now`.
    pub open spec fn created(id: u128, now: Timestamp) -> ActiveModelView {
        ActiveModelView {
            id: ActiveValue::Assigned(id),
            user_id: ActiveValue::NotSet,
            organisation_profile_id: ActiveValue::NotSet,
            needs_verification: ActiveValue::NotSet,
            phone_country: ActiveValue::NotSet,
            phone_number: ActiveValue::NotSet,
            is_primary: ActiveValue::NotSet,
            is_verified: ActiveValue::NotSet,
            verification_code: ActiveValue::NotSet,
            verification_code_expires_at: ActiveValue::NotSet,
            verified_at: ActiveValue::NotSet,
            created_at: ActiveValue::Assigned(now),
            updated_at: ActiveValue::Assigned(now),
        }
    }
}

impl ActiveModel {
    /// A change that creates a phone number with a fresh identifier at `now`.
    pub fn new(now: Timestamp) -> (r: ActiveModel)
        ensures
            r.id is Assigned && is_random_id(r.id->Assigned_0),
            r@ == ActiveModelView::created(r.id->Assigned_0, now),
    {
        ActiveModel {
            id: ActiveValue::Assigned(new_v4()),
            user_id: ActiveValue::NotSet,
            organisation_profile_id: ActiveValue::NotSet,
            needs_verification: ActiveValue::NotSet,
            phone_country: ActiveValue::NotSet,
            phone_number: ActiveValue::NotSet,
            is_primary: ActiveValue::NotSet,
            is_verified: ActiveValue::NotSet,
            verification_code: ActiveValue::NotSet,
            verification_code_expires_at: ActiveValue::NotSet,
            verified_at: ActiveValue::NotSet,
            created_at: ActiveValue::Assigned(now),
            updated_at: ActiveValue::Assigned(now),
        }
    }

    /// Applies the write policy to the change: stamps it with `now`, and on a
    /// write of the verified flag sets or clears the time of verification.
    pub fn before_save(self, insert: bool, now: Timestamp) -> (r: Result<ActiveModel, RejectionReason>)
        ensures
            r matches Ok(saved) && saved@ == self@.finalized(insert, now),
    {
        let mut change = self;
        if insert {
            change.created_at = ActiveValue::Assigned(now);
        }
        change.updated_at = ActiveValue::Assigned(now);
        change.verified_at = mirror(&change.is_verified, change.verified_at, now);
        Ok(change)
    }
}

/// Saving a phone number marked as verified records the time of the write as the
/// time of verification; saving the result marked as unverified clears it.
/// The flag is stored as written each time.
pub proof fn lemma_verified_then_unverified(
    change: ActiveModelView,
    insert: bool,
    first: Timestamp,
    second: Timestamp,
)
    ensures
        ({
            let verified = ActiveModelView { is_verified: ActiveValue::Assigned(true), ..change };
            let after_first = verified.finalized(insert, first);
            let unverified = ActiveModelView {
                is_verified: ActiveValue::Assigned(false),
                ..after_first
            };
            let after_second = unverified.finalized(false, second);
            &&& after_first.verified_at == ActiveValue::Assigned(Some(first))
            &&& after_first.is_verified == ActiveValue::Assigned(true)
            &&& after_second.verified_at == ActiveValue::Assigned(None::<Timestamp>)
            &&& after_second.is_verified == ActiveValue::Assigned(false)
        }),
{
}

} // verus!
