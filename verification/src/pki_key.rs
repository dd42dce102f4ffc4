//! Key pairs of the public-key infrastructure.

use vstd::prelude::*;
use crate::active_value::ActiveValue;
use crate::ident::{is_random_id, new_v4};
use crate::rejection::{EntityKind, RejectionReason};
use crate::timestamp::Timestamp;

verus! {

/// The algorithm of a key pair.
#[derive(Clone, Copy, Debug, PartialEq, Eq, Structural)]
pub enum KeyAlgos {
    RSA,
}

/// A pending change to a key pair.
#[derive(Clone, Debug, PartialEq, Eq)]
pub struct ActiveModel {
    pub id: ActiveValue<u128>,
    pub user_id: ActiveValue<Option<u128>>,
    pub organisation_id: ActiveValue<Option<u128>>,
    pub group_id: ActiveValue<Option<u128>>,
    pub private_key: ActiveValue<Option<String>>,
    pub public_key: ActiveValue<Option<String>>,
    pub aws_kms_url: ActiveValue<Option<String>>,
    pub algo: ActiveValue<KeyAlgos>,
    pub created_at: ActiveValue<Timestamp>,
    pub updated_at: ActiveValue<Timestamp>,
}

/// What an `ActiveModel` stands for: the same columns, with text as
/// sequences of characters.
pub struct ActiveModelView {
    pub id: ActiveValue<u128>,
    pub user_id: ActiveValue<Option<u128>>,
    pub organisation_id: ActiveValue<Option<u128>>,
    pub group_id: ActiveValue<Option<u128>>,
    pub private_key: ActiveValue<Option<Seq<char>>>,
    pub public_key: ActiveValue<Option<Seq<char>>>,
    pub aws_kms_url: ActiveValue<Option<Seq<char>>>,
    pub algo: ActiveValue<KeyAlgos>,
    pub created_at: ActiveValue<Timestamp>,
    pub updated_at: ActiveValue<Timestamp>,
}

impl View for ActiveModel {
    type V = ActiveModelView;

    open spec fn view(&self) -> ActiveModelView {
        ActiveModelView {
            id: self.id,
            user_id: self.user_id,
            organisation_id: self.organisation_id,
            group_id: self.group_id,
            private_key: self.private_key.deep_view(),
            public_key: self.public_key.deep_view(),
            aws_kms_url: self.aws_kms_url.deep_view(),
            algo: self.algo,
            created_at: self.created_at,
            updated_at: self.updated_at,
        }
    }
}

impl ActiveModelView {
    /// The key pair belongs to a user, an organisation or a group.
    pub open spec fn has_owner(self) -> bool {
        self.user_id.holds_some() || self.organisation_id.holds_some() || self.group_id.holds_some()
    }

    /// The outcome of the write policy at `now`: a key pair without an owner
    /// is refused; otherwise the change is stamped.
    pub open spec fn finalized(self, insert: bool, now: Timestamp) -> Result<
        ActiveModelView,
        RejectionReason,
    > {
        if !self.has_owner() {
            Err(RejectionReason::MissingOwner { entity_kind: EntityKind::PkiKey })
        } else {
            Ok(
                ActiveModelView {
                    created_at: if insert {
                        ActiveValue::Assigned(now)
                    } else {
                        self.created_at
                    },
                    updated_at: ActiveValue::Assigned(now),
                    ..self
                },
            )
        }
    }

    /// A change that creates a key pair identified by `id` at `now`.
    pub open spec fn created(id: u128, now: Timestamp) -> ActiveModelView {
        ActiveModelView {
            id: ActiveValue::Assigned(id),
            user_id: ActiveValue::NotSet,
            organisation_id: ActiveValue::NotSet,
            group_id: ActiveValue::NotSet,
            private_key: ActiveValue::NotSet,
            public_key: ActiveValue::NotSet,
            aws_kms_url: ActiveValue::NotSet,
            algo: ActiveValue::NotSet,
            created_at: ActiveValue::Assigned(now),
            updated_at: ActiveValue::Assigned(now),
        }
    }
}

/// `outcome` is `expected`, read through the view of the approved change.
pub open spec fn is_outcome(
    outcome: Result<ActiveModel, RejectionReason>,
    expected: Result<ActiveModelView, RejectionReason>,
) -> bool {
    match outcome {
        Ok(saved) => expected == Ok::<ActiveModelView, RejectionReason>(saved@),
        Err(reason) => expected == Err::<ActiveModelView, RejectionReason>(reason),
    }
}

impl ActiveModel {
    /// A change that creates a key pair with a fresh identifier at `now`.
    pub fn new(now: Timestamp) -> (r: ActiveModel)
        ensures
            r.id is Assigned && is_random_id(r.id->Assigned_0),
            r@ == ActiveModelView::created(r.id->Assigned_0, now),
    {
        ActiveModel {
            id: ActiveValue::Assigned(new_v4()),
            user_id: ActiveValue::NotSet,
            organisation_id: ActiveValue::NotSet,
            group_id: ActiveValue::NotSet,
            private_key: ActiveValue::NotSet,
            public_key: ActiveValue::NotSet,
            aws_kms_url: ActiveValue::NotSet,
            algo: ActiveValue::NotSet,
            created_at: ActiveValue::Assigned(now),
            updated_at: ActiveValue::Assigned(now),
        }
    }

    /// Tests whether the key pair belongs to a user, an organisation or a
    /// group.
    pub fn has_owner(&self) -> (r: bool)
        ensures
            r == self@.has_owner(),
    {
        self.user_id.has_some() || self.organisation_id.has_some() || self.group_id.has_some()
    }

    /// Applies the write policy to the change: refuses a key pair without an
    /// owner and stamps the change with `now`.
    pub fn before_save(self, insert: bool, now: Timestamp) -> (r: Result<ActiveModel, RejectionReason>)
        ensures
            is_outcome(r, self@.finalized(insert, now)),
    {
        if !self.has_owner() {
            return Err(RejectionReason::MissingOwner { entity_kind: EntityKind::PkiKey });
        }
        let mut change = self;
        if insert {
            change.created_at = ActiveValue::Assigned(now);
        }
        change.updated_at = ActiveValue::Assigned(now);
        Ok(change)
    }
}

/// A key pair is refused for its missing owner exactly when it names no
/// user, no organisation and no group, as an insert and as an update.
pub proof fn lemma_refused_without_owner(change: ActiveModelView, insert: bool, now: Timestamp)
    ensures
        change.finalized(insert, now) is Err <==> !change.user_id.holds_some()
            && !change.organisation_id.holds_some() && !change.group_id.holds_some(),
        change.finalized(insert, now) matches Err(reason) ==> reason == (
            RejectionReason::MissingOwner { entity_kind: EntityKind::PkiKey }),
{
}

} // verus!
