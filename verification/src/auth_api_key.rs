//! API key pairs of users and organisations.

use vstd::prelude::*;
use crate::active_value::ActiveValue;
use crate::config::PolicyConfig;
use crate::ident::{is_random_id, new_v4};
use crate::rejection::{EntityKind, RejectionReason};
use crate::timestamp::Timestamp;
use crate::token::{generate, is_token, Charset};

verus! {

/// A pending change to an API key pair.
#[derive(Clone, Debug, PartialEq, Eq)]
pub struct ActiveModel {
    pub id: ActiveValue<u128>,
    pub user_id: ActiveValue<Option<u128>>,
    pub organisation_id: ActiveValue<Option<u128>>,
    pub api_access_key: ActiveValue<String>,
    pub api_secret_key: ActiveValue<String>,
    pub key_issued_at: ActiveValue<Timestamp>,
    pub expires_on: ActiveValue<Option<Timestamp>>,
    pub ip_address_last_used: ActiveValue<Option<String>>,
    pub key_last_used_at: ActiveValue<Option<Timestamp>>,
    pub created_at: ActiveValue<Timestamp>,
    pub updated_at: ActiveValue<Timestamp>,
}

/// What an `ActiveModel` stands for: the same columns, with text as
/// sequences of characters.
pub struct ActiveModelView {
    pub id: ActiveValue<u128>,
    pub user_id: ActiveValue<Option<u128>>,
    pub organisation_id: ActiveValue<Option<u128>>,
    pub api_access_key: ActiveValue<Seq<char>>,
    pub api_secret_key: ActiveValue<Seq<char>>,
    pub key_issued_at: ActiveValue<Timestamp>,
    pub expires_on: ActiveValue<Option<Timestamp>>,
    pub ip_address_last_used: ActiveValue<Option<Seq<char>>>,
    pub key_last_used_at: ActiveValue<Option<Timestamp>>,
    pub created_at: ActiveValue<Timestamp>,
    pub updated_at: ActiveValue<Timestamp>,
}

impl View for ActiveModel {
    type V = ActiveModelView;

    open spec fn view(&self) -> ActiveModelView {
        ActiveModelView {
            id: self.id,
            user_id: self.user_id,
            organisation_id: self.organisation_id,
            api_access_key: self.api_access_key.deep_view(),
            api_secret_key: self.api_secret_key.deep_view(),
            key_issued_at: self.key_issued_at,
            expires_on: self.expires_on,
            ip_address_last_used: self.ip_address_last_used.deep_view(),
            key_last_used_at: self.key_last_used_at,
            created_at: self.created_at,
            updated_at: self.updated_at,
        }
    }
}

impl ActiveModelView {
    /// The key pair belongs to a user or to an organisation.
    pub open spec fn has_owner(self) -> bool {
        self.user_id.holds_some() || self.organisation_id.holds_some()
    }

    /// The outcome of the write policy at `now`: a key pair without an owner
    /// is refused; otherwise the change is stamped, and an update that
    /// records the address of a use also records its time.
    pub open spec fn finalized(self, insert: bool, now: Timestamp) -> Result<
        ActiveModelView,
        RejectionReason,
    > {
        if !self.has_owner() {
            Err(RejectionReason::MissingOwner { entity_kind: EntityKind::ApiKeyCredential })
        } else {
            Ok(
                ActiveModelView {
                    key_last_used_at: if !insert && self.ip_address_last_used is Assigned {
                        ActiveValue::Assigned(Some(now))
                    } else {
                        self.key_last_used_at
                    },
                    created_at: if insert {
                        ActiveValue::Assigned(now)
                    } else {
                        self.created_at
                    },
                    updated_at: ActiveValue::Assigned(now),
                    ..self
                },
            )
        }
    }

    /// A change that creates the key pair `access_key`, `secret_key`,
    /// identified by `id` and issued at `now`.
    pub open spec fn created(
        id: u128,
        access_key: Seq<char>,
        secret_key: Seq<char>,
        now: Timestamp,
    ) -> ActiveModelView {
        ActiveModelView {
            id: ActiveValue::Assigned(id),
            user_id: ActiveValue::NotSet,
            organisation_id: ActiveValue::NotSet,
            api_access_key: ActiveValue::Assigned(access_key),
            api_secret_key: ActiveValue::Assigned(secret_key),
            key_issued_at: ActiveValue::Assigned(now),
            expires_on: ActiveValue::NotSet,
            ip_address_last_used: ActiveValue::NotSet,
            key_last_used_at: ActiveValue::NotSet,
            created_at: ActiveValue::Assigned(now),
            updated_at: ActiveValue::Assigned(now),
        }
    }
}

/// `outcome` is `expected`, read through the view of the approved change.
pub open spec fn is_outcome(
    outcome: Result<ActiveModel, RejectionReason>,
    expected: Result<ActiveModelView, RejectionReason>,
) -> bool {
    match outcome {
        Ok(saved) => expected == Ok::<ActiveModelView, RejectionReason>(saved@),
        Err(reason) => expected == Err::<ActiveModelView, RejectionReason>(reason),
    }
}

/// A fresh pair of access key and secret key: unpredictable letters and
/// digits.
pub fn generante_api_key(cfg: &PolicyConfig) -> (keys: (String, String))
    ensures
        is_token(keys.0@, cfg.api_access_key_size as nat, Charset::Alphanumeric),
        is_token(keys.1@, cfg.api_secret_key_size as nat, Charset::Alphanumeric),
{
    let access_key = generate(cfg.api_access_key_size, Charset::Alphanumeric);
    let secret_key = generate(cfg.api_secret_key_size, Charset::Alphanumeric);
    (access_key, secret_key)
}

impl ActiveModel {
    /// A change that creates a key pair with a fresh identifier and fresh
    /// keys, issued at `now`.
    pub fn new(now: Timestamp, cfg: &PolicyConfig) -> (r: ActiveModel)
        ensures
            r.id is Assigned && is_random_id(r.id->Assigned_0),
            r.api_access_key is Assigned && is_token(
                r.api_access_key->Assigned_0@,
                cfg.api_access_key_size as nat,
                Charset::Alphanumeric,
            ),
            r.api_secret_key is Assigned && is_token(
                r.api_secret_key->Assigned_0@,
                cfg.api_secret_key_size as nat,
                Charset::Alphanumeric,
            ),
            r@ == ActiveModelView::created(
                r.id->Assigned_0,
                r.api_access_key->Assigned_0@,
                r.api_secret_key->Assigned_0@,
                now,
            ),
    {
        let (api_access_key, api_secret_key) = generante_api_key(cfg);
        ActiveModel {
            id: ActiveValue::Assigned(new_v4()),
            user_id: ActiveValue::NotSet,
            organisation_id: ActiveValue::NotSet,
            api_access_key: ActiveValue::Assigned(api_access_key),
            api_secret_key: ActiveValue::Assigned(api_secret_key),
            key_issued_at: ActiveValue::Assigned(now),
            expires_on: ActiveValue::NotSet,
            ip_address_last_used: ActiveValue::NotSet,
            key_last_used_at: ActiveValue::NotSet,
            created_at: ActiveValue::Assigned(now),
            updated_at: ActiveValue::Assigned(now),
        }
    }

    /// Tests whether the key pair belongs to a user or to an organisation.
    pub fn has_owner(&self) -> (r: bool)
        ensures
            r == self@.has_owner(),
    {
        self.user_id.has_some() || self.organisation_id.has_some()
    }

    /// Applies the write policy to the change: refuses a key pair without an
    /// owner, stamps the change with `now`, and on an update that records the
    /// address of a use records its time.
    pub fn before_save(self, insert: bool, now: Timestamp) -> (r: Result<ActiveModel, RejectionReason>)
        ensures
            is_outcome(r, self@.finalized(insert, now)),
    {
        if !self.has_owner() {
            return Err(RejectionReason::MissingOwner { entity_kind: EntityKind::ApiKeyCredential });
        }
        let mut change = self;
        if insert {
            change.created_at = ActiveValue::Assigned(now);
        } else if change.ip_address_last_used.is_set() {
            change.key_last_used_at = ActiveValue::Assigned(Some(now));
        }
        change.updated_at = ActiveValue::Assigned(now);
        Ok(change)
    }
}

/// A key pair that names neither a user nor an organisation is refused for
/// its missing owner, as an insert and as an update, and one that names
/// either is approved.
pub proof fn lemma_refused_without_owner(change: ActiveModelView, insert: bool, now: Timestamp)
    ensures
        !change.user_id.holds_some() && !change.organisation_id.holds_some()
            ==> change.finalized(insert, now) == Err::<ActiveModelView, RejectionReason>(
            RejectionReason::MissingOwner { entity_kind: EntityKind::ApiKeyCredential },
        ),
        change.user_id.holds_some() || change.organisation_id.holds_some() ==> change.finalized(
            insert,
            now,
        ) is Ok,
{
}

} // verus!
