//! The write policy of every kind of record behind one entry point.

use vstd::prelude::*;
use crate::auth_api_key;
use crate::auth_method_magiclink;
use crate::auth_method_pass;
use crate::config::PolicyConfig;
use crate::phone;
use crate::pki_key;
use crate::plain;
use crate::rejection::{EntityKind, RejectionReason};
use crate::timestamp::Timestamp;
use crate::user;
use crate::user_email;
use crate::user_profile;

verus! {

/// Whether a change creates a record or alters a stored one.
#[derive(Clone, Copy, Debug, PartialEq, Eq, Structural)]
pub enum Operation {
    Insert,
    Update,
}

impl Operation {
    /// The operation is an insert.
    pub open spec fn spec_is_insert(&self) -> bool {
        *self is Insert
    }

    /// True for an insert.
    #[verifier::when_used_as_spec(spec_is_insert)]
    pub fn is_insert(&self) -> (r: bool)
        ensures
            r == (*self is Insert),
    {
        match self {
            Operation::Insert => true,
            Operation::Update => false,
        }
    }
}

/// A pending change to a record of one of the kinds that the policy knows.
#[derive(Clone, Debug, PartialEq, Eq)]
pub enum PendingChange {
    Credential(auth_method_pass::ActiveModel),
    MagicLinkCredential(auth_method_magiclink::ActiveModel),
    ApiKeyCredential(auth_api_key::ActiveModel),
    PkiKey(pki_key::ActiveModel),
    User(user::ActiveModel),
    Email(user_email::ActiveModel),
    Phone(phone::ActiveModel),
    UserProfile(user_profile::ActiveModel),
    Plain(plain::ActiveModel),
}

impl PendingChange {
    /// The kind of record that the change is for.
    pub open spec fn entity_kind(self) -> EntityKind {
        match self {
            PendingChange::Credential(_) => EntityKind::Credential,
            PendingChange::MagicLinkCredential(_) => EntityKind::MagicLinkCredential,
            PendingChange::ApiKeyCredential(_) => EntityKind::ApiKeyCredential,
            PendingChange::PkiKey(_) => EntityKind::PkiKey,
            PendingChange::User(_) => EntityKind::User,
            PendingChange::Email(_) => EntityKind::Email,
            PendingChange::Phone(_) => EntityKind::Phone,
            PendingChange::UserProfile(_) => EntityKind::UserProfile,
            PendingChange::Plain(_) => EntityKind::Plain,
        }
    }

    /// The kind of record that the change is for.
    pub fn kind(&self) -> (kind: EntityKind)
        ensures
            kind == self.entity_kind(),
    {
        match self {
            PendingChange::Credential(_) => EntityKind::Credential,
            PendingChange::MagicLinkCredential(_) => EntityKind::MagicLinkCredential,
            PendingChange::ApiKeyCredential(_) => EntityKind::ApiKeyCredential,
            PendingChange::PkiKey(_) => EntityKind::PkiKey,
            PendingChange::User(_) => EntityKind::User,
            PendingChange::Email(_) => EntityKind::Email,
            PendingChange::Phone(_) => EntityKind::Phone,
            PendingChange::UserProfile(_) => EntityKind::UserProfile,
            PendingChange::Plain(_) => EntityKind::Plain,
        }
    }
}

/// The clock and the configuration allow `change` to be applied at `now`:
/// every expiry that the change calls for is representable, and reset codes
/// can be drawn if it calls for one.
pub open spec fn admits(
    change: PendingChange,
    operation: Operation,
    now: Timestamp,
    cfg: PolicyConfig,
) -> bool {
    match change {
        PendingChange::Credential(record) => record@.savable(now, cfg),
        PendingChange::MagicLinkCredential(record) => record@.savable(now, cfg),
        PendingChange::User(record) => record.savable(operation is Insert, now, cfg),
        _ => true,
    }
}

/// Tests `admits`.
pub fn check_admits(change: &PendingChange, operation: Operation, now: Timestamp, cfg: &PolicyConfig) -> (r:
    bool)
    ensures
        r == admits(*change, operation, now, *cfg),
{
    match change {
        PendingChange::Credential(record) => record.can_save(now, cfg),
        PendingChange::MagicLinkCredential(record) => record.can_save(now, cfg),
        PendingChange::User(record) => record.can_save(operation.is_insert(), now, cfg),
        _ => true,
    }
}

/// What `apply` may return for `change`: what the `before_save` of the
/// change's kind may return, as a change of the same kind.
pub open spec fn is_applied(
    outcome: Result<PendingChange, RejectionReason>,
    change: PendingChange,
    operation: Operation,
    now: Timestamp,
    cfg: PolicyConfig,
) -> bool {
    let insert = operation is Insert;
    match change {
        PendingChange::Credential(record) => match outcome {
            Ok(PendingChange::Credential(saved)) => auth_method_pass::is_saved(
                Ok(saved),
                record@,
                insert,
                now,
                cfg,
            ),
            Ok(_) => false,
            Err(reason) => auth_method_pass::is_saved(Err(reason), record@, insert, now, cfg),
        },
        PendingChange::MagicLinkCredential(record) => outcome matches Ok(
            PendingChange::MagicLinkCredential(saved),
        ) && auth_method_magiclink::is_saved(Ok(saved), record@, insert, now, cfg),
        PendingChange::ApiKeyCredential(record) => match outcome {
            Ok(PendingChange::ApiKeyCredential(saved)) => auth_api_key::is_outcome(
                Ok(saved),
                record@.finalized(insert, now),
            ),
            Ok(_) => false,
            Err(reason) => auth_api_key::is_outcome(Err(reason), record@.finalized(insert, now)),
        },
        PendingChange::PkiKey(record) => match outcome {
            Ok(PendingChange::PkiKey(saved)) => pki_key::is_outcome(
                Ok(saved),
                record@.finalized(insert, now),
            ),
            Ok(_) => false,
            Err(reason) => pki_key::is_outcome(Err(reason), record@.finalized(insert, now)),
        },
        PendingChange::User(record) => outcome matches Ok(PendingChange::User(saved)) && saved
            == record.finalized(insert, now, cfg),
        PendingChange::Email(record) => outcome matches Ok(PendingChange::Email(saved)) && saved@
            == record@.finalized(insert, now),
        PendingChange::Phone(record) => outcome matches Ok(PendingChange::Phone(saved)) && saved@
            == record@.finalized(insert, now),
        PendingChange::UserProfile(record) => outcome matches Ok(
            PendingChange::UserProfile(saved),
        ) && user_profile::is_saved(Ok(saved), record@, insert, now),
        PendingChange::Plain(record) => outcome matches Ok(PendingChange::Plain(saved)) && saved
            == record.finalized(insert, now),
    }
}

/// Applies the write policy of the change's kind: the change comes back
/// finalized, ready for storage, or is refused with the reason.
pub fn apply(change: PendingChange, operation: Operation, now: Timestamp, cfg: &PolicyConfig) -> (r:
    Result<PendingChange, RejectionReason>)
    requires
        admits(change, operation, now, *cfg),
    ensures
        is_applied(r, change, operation, now, *cfg),
{
    let insert = operation.is_insert();
    match change {
        PendingChange::Credential(record) => match record.before_save(insert, now, cfg) {
            Ok(saved) => Ok(PendingChange::Credential(saved)),
            Err(reason) => Err(reason),
        },
        PendingChange::MagicLinkCredential(record) => match record.before_save(insert, now, cfg) {
            Ok(saved) => Ok(PendingChange::MagicLinkCredential(saved)),
            Err(reason) => Err(reason),
        },
        PendingChange::ApiKeyCredential(record) => match record.before_save(insert, now) {
            Ok(saved) => Ok(PendingChange::ApiKeyCredential(saved)),
            Err(reason) => Err(reason),
        },
        PendingChange::PkiKey(record) => match record.before_save(insert, now) {
            Ok(saved) => Ok(PendingChange::PkiKey(saved)),
            Err(reason) => Err(reason),
        },
        PendingChange::User(record) => match record.before_save(insert, now, cfg) {
            Ok(saved) => Ok(PendingChange::User(saved)),
            Err(reason) => Err(reason),
        },
        PendingChange::Email(record) => match record.before_save(insert, now) {
            Ok(saved) => Ok(PendingChange::Email(saved)),
            Err(reason) => Err(reason),
        },
        PendingChange::Phone(record) => match record.before_save(insert, now) {
            Ok(saved) => Ok(PendingChange::Phone(saved)),
            Err(reason) => Err(reason),
        },
        PendingChange::UserProfile(record) => match record.before_save(insert, now) {
            Ok(saved) => Ok(PendingChange::UserProfile(saved)),
            Err(reason) => Err(reason),
        },
        PendingChange::Plain(record) => match record.before_save(insert, now) {
            Ok(saved) => Ok(PendingChange::Plain(saved)),
            Err(reason) => Err(reason),
        },
    }
}

} // verus!
