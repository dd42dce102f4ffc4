//! Magic-link credentials: single-use login tokens with a short life.

use vstd::prelude::*;
use crate::active_value::ActiveValue;
use crate::config::PolicyConfig;
use crate::expiry::{expiry_for, expiry_of, ExpiryKind};
use crate::ident::{is_random_id, new_v4};
use crate::rejection::RejectionReason;
use crate::timestamp::Timestamp;
use crate::token::{generate, is_token, Charset};

verus! {

/// A pending change to a magic-link credential.
#[derive(Clone, Debug, PartialEq, Eq)]
pub struct ActiveModel {
    pub id: ActiveValue<u128>,
    pub user_id: ActiveValue<u128>,
    pub email_id: ActiveValue<Option<u128>>,
    pub phone_id: ActiveValue<Option<u128>>,
    pub link_hash: ActiveValue<Option<String>>,
    pub link_hash_expires_at: ActiveValue<Option<Timestamp>>,
    pub link_used_at: ActiveValue<Option<Timestamp>>,
    pub created_at: ActiveValue<Timestamp>,
    pub updated_at: ActiveValue<Timestamp>,
}

/// What an `ActiveModel` stands for: the same columns, with text as
/// sequences of characters.
pub struct ActiveModelView {
    pub id: ActiveValue<u128>,
    pub user_id: ActiveValue<u128>,
    pub email_id: ActiveValue<Option<u128>>,
    pub phone_id: ActiveValue<Option<u128>>,
    pub link_hash: ActiveValue<Option<Seq<char>>>,
    pub link_hash_expires_at: ActiveValue<Option<Timestamp>>,
    pub link_used_at: ActiveValue<Option<Timestamp>>,
    pub created_at: ActiveValue<Timestamp>,
    pub updated_at: ActiveValue<Timestamp>,
}

impl View for ActiveModel {
    type V = ActiveModelView;

    open spec fn view(&self) -> ActiveModelView {
        ActiveModelView {
            id: self.id,
            user_id: self.user_id,
            email_id: self.email_id,
            phone_id: self.phone_id,
            link_hash: self.link_hash.deep_view(),
            link_hash_expires_at: self.link_hash_expires_at,
            link_used_at: self.link_used_at,
            created_at: self.created_at,
            updated_at: self.updated_at,
        }
    }
}

impl ActiveModelView {
    /// The link token of the change once a use of the link has cleared it.
    pub open spec fn link_after_use(self) -> ActiveValue<Option<Seq<char>>> {
        if self.link_used_at is Assigned {
            ActiveValue::Assigned(None)
        } else {
            self.link_hash
        }
    }

    /// The change asks for a link: it writes a token and does not mark the
    /// link as used.
    pub open spec fn reissues(self) -> bool {
        self.link_after_use().writes_some()
    }

    /// The change withdraws the link: it marks the link as used or writes an
    /// absent token.
    pub open spec fn withdraws(self) -> bool {
        self.link_after_use().writes_none()
    }

    /// The token that the change carries, or no text.
    pub open spec fn token(self) -> Seq<char> {
        match self.link_hash {
            ActiveValue::Assigned(Some(token)) => token,
            _ => Seq::empty(),
        }
    }

    /// The change as it is handed to storage at `now`, where `token` is what
    /// the server issues if the change asks for a link.
    ///
    /// A token that the caller wrote is replaced by `token` and expires one
    /// validity window after `now`; a withdrawn link has neither token nor
    /// expiry. An expiry that the caller wrote without asking for a link or
    /// withdrawing it is taken out of the change: the expiry is only ever
    /// written together with the token.
    pub open spec fn finalized(
        self,
        insert: bool,
        now: Timestamp,
        cfg: PolicyConfig,
        token: Seq<char>,
    ) -> ActiveModelView {
        ActiveModelView {
            link_hash: if self.reissues() {
                ActiveValue::Assigned(Some(token))
            } else {
                self.link_after_use()
            },
            link_hash_expires_at: if self.reissues() {
                ActiveValue::Assigned(Some(expiry_of(ExpiryKind::MagicLink, now, cfg)))
            } else if self.withdraws() {
                ActiveValue::Assigned(None)
            } else {
                self.link_hash_expires_at.without_write()
            },
            created_at: if insert {
                ActiveValue::Assigned(now)
            } else {
                self.created_at
            },
            updated_at: ActiveValue::Assigned(now),
            ..self
        }
    }

    /// The clock allows the change to be saved at `now`: if it asks for a
    /// link, the link's expiry is representable.
    pub open spec fn savable(self, now: Timestamp, cfg: PolicyConfig) -> bool {
        self.reissues() ==> now.can_advance(ExpiryKind::MagicLink.window_minutes(cfg))
    }

    /// A change that creates a credential identified by `id`, with the
    /// link `token` issued at `now`.
    pub open spec fn created(id: u128, token: Seq<char>, now: Timestamp, cfg: PolicyConfig) -> ActiveModelView {
        ActiveModelView {
            id: ActiveValue::Assigned(id),
            user_id: ActiveValue::NotSet,
            email_id: ActiveValue::NotSet,
            phone_id: ActiveValue::NotSet,
            link_hash: ActiveValue::Assigned(Some(token)),
            link_hash_expires_at: ActiveValue::Assigned(
                Some(expiry_of(ExpiryKind::MagicLink, now, cfg)),
            ),
            link_used_at: ActiveValue::NotSet,
            created_at: ActiveValue::Assigned(now),
            updated_at: ActiveValue::Assigned(now),
        }
    }
}

/// What `before_save` may return for `change`: the finalized change for the
/// token that it carries, which is made of letters and digits and has the
/// configured length where the change asks for a link.
pub open spec fn is_saved(
    outcome: Result<ActiveModel, RejectionReason>,
    change: ActiveModelView,
    insert: bool,
    now: Timestamp,
    cfg: PolicyConfig,
) -> bool {
    &&& outcome matches Ok(saved)
    &&& saved@ == change.finalized(insert, now, cfg, saved@.token())
    &&& change.reissues() ==> is_token(
        saved@.token(),
        cfg.link_hash_size as nat,
        Charset::Alphanumeric,
    )
}

/// The instant at which a link issued at `now` expires.
pub fn generate_expires_at(now: Timestamp, cfg: &PolicyConfig) -> (expiry: Timestamp)
    requires
        now.can_advance(ExpiryKind::MagicLink.window_minutes(*cfg)),
    ensures
        expiry == expiry_of(ExpiryKind::MagicLink, now, *cfg),
        expiry.secs == now.secs + 60 * cfg.link_valid_mins,
        expiry.nanos == now.nanos,
{
    expiry_for(ExpiryKind::MagicLink, now, cfg)
}

/// A fresh link token: unpredictable letters and digits.
pub fn generate_login_link_hash(cfg: &PolicyConfig) -> (token: String)
    ensures
        is_token(token@, cfg.link_hash_size as nat, Charset::Alphanumeric),
{
    generate(cfg.link_hash_size, Charset::Alphanumeric)
}

impl ActiveModel {
    /// A change that creates a credential with a fresh identifier and a fresh
    /// link issued at `now`.
    pub fn new(now: Timestamp, cfg: &PolicyConfig) -> (r: ActiveModel)
        requires
            now.can_advance(ExpiryKind::MagicLink.window_minutes(*cfg)),
        ensures
            r@ == ActiveModelView::created(r.id->Assigned_0, r@.token(), now, *cfg),
            r.id is Assigned && is_random_id(r.id->Assigned_0),
            is_token(r@.token(), cfg.link_hash_size as nat, Charset::Alphanumeric),
    {
        ActiveModel {
            id: ActiveValue::Assigned(new_v4()),
            user_id: ActiveValue::NotSet,
            email_id: ActiveValue::NotSet,
            phone_id: ActiveValue::NotSet,
            link_hash: ActiveValue::Assigned(Some(generate_login_link_hash(cfg))),
            link_hash_expires_at: ActiveValue::Assigned(Some(generate_expires_at(now, cfg))),
            link_used_at: ActiveValue::NotSet,
            created_at: ActiveValue::Assigned(now),
            updated_at: ActiveValue::Assigned(now),
        }
    }

    /// Tests whether the clock allows the change to be saved at `now`.
    pub fn can_save(&self, now: Timestamp, cfg: &PolicyConfig) -> (r: bool)
        ensures
            r == self@.savable(now, *cfg),
    {
        !self.reissues() || now.check_can_advance(ExpiryKind::MagicLink.minutes(cfg))
    }

    /// Tests whether the change asks for a link.
    pub fn reissues(&self) -> (r: bool)
        ensures
            r == self@.reissues(),
    {
        !self.link_used_at.is_set() && self.link_hash.sets_some()
    }

    /// Tests whether the change withdraws the link.
    pub fn withdraws(&self) -> (r: bool)
        ensures
            r == self@.withdraws(),
    {
        self.link_used_at.is_set() || self.link_hash.sets_none()
    }

    /// Applies the write policy to the change, with `token` as the token
    /// that the server issues if the change asks for a link.
    pub fn before_save_with(self, insert: bool, now: Timestamp, cfg: &PolicyConfig, token: String) -> (r:
        ActiveModel)
        requires
            self@.savable(now, *cfg),
        ensures
            r@ == self@.finalized(insert, now, *cfg, token@),
    {
        let reissues = self.reissues();
        let withdraws = self.withdraws();
        let mut change = self;
        if insert {
            change.created_at = ActiveValue::Assigned(now);
        }
        change.updated_at = ActiveValue::Assigned(now);
        if reissues {
            change.link_hash = ActiveValue::Assigned(Some(token));
            change.link_hash_expires_at = ActiveValue::Assigned(
                Some(generate_expires_at(now, cfg)),
            );
        } else if withdraws {
            change.link_hash = ActiveValue::Assigned(None);
            change.link_hash_expires_at = ActiveValue::Assigned(None);
        } else {
            change.link_hash_expires_at = change.link_hash_expires_at.drop_write();
        }
        change
    }

    /// Applies the write policy to the change: stamps it with `now`, clears
    /// the token of a used link, replaces a token that the caller wrote by a
    /// fresh one that expires one validity window after `now`, and takes an
    /// expiry that the caller wrote without a token out of the change.
    pub fn before_save(self, insert: bool, now: Timestamp, cfg: &PolicyConfig) -> (r: Result<
        ActiveModel,
        RejectionReason,
    >)
        requires
            self@.savable(now, *cfg),
        ensures
            is_saved(r, self@, insert, now, *cfg),
    {
        let token = if self.reissues() {
            generate_login_link_hash(cfg)
        } else {
            String::new()
        };
        Ok(self.before_save_with(insert, now, cfg, token))
    }
}

/// A change that asks for a link is saved with the server's token and with
/// the expiry of a link issued at `now`, both written in the same change; the
/// expiry is the configured number of minutes after `now`.
pub proof fn lemma_reissue_pairs_token_and_expiry(
    change: ActiveModelView,
    insert: bool,
    now: Timestamp,
    cfg: PolicyConfig,
    token: Seq<char>,
)
    requires
        change.reissues(),
        change.savable(now, cfg),
    ensures
        change.finalized(insert, now, cfg, token).link_hash == ActiveValue::Assigned(Some(token)),
        change.finalized(insert, now, cfg, token).link_hash_expires_at matches ActiveValue::Assigned(
            Some(expiry),
        ) && expiry.secs == now.secs + 60 * cfg.link_valid_mins && expiry.nanos == now.nanos,
        cfg.link_valid_mins == PolicyConfig::standard().link_valid_mins ==> change.finalized(
            insert,
            now,
            cfg,
            token,
        ).link_hash_expires_at == ActiveValue::Assigned(
            Some(Timestamp { secs: (now.secs + 600) as i64, nanos: now.nanos }),
        ),
{
}

/// A change that marks the link as used is saved without a token and
/// without an expiry, whatever token the caller wrote.
pub proof fn lemma_used_link_is_cleared(
    change: ActiveModelView,
    insert: bool,
    now: Timestamp,
    cfg: PolicyConfig,
    token: Seq<char>,
)
    requires
        change.link_used_at is Assigned,
    ensures
        change.finalized(insert, now, cfg, token).link_hash == ActiveValue::Assigned(
            None::<Seq<char>>,
        ),
        change.finalized(insert, now, cfg, token).link_hash_expires_at == ActiveValue::Assigned(
            None::<Timestamp>,
        ),
        change.finalized(insert, now, cfg, token).link_used_at == change.link_used_at,
{
}

/// An expiry that the caller wrote in a change that neither asks for a link
/// nor withdraws it is not stored: the saved change does not write the expiry
/// and leaves the token as it was.
pub proof fn lemma_expiry_alone_is_not_stored(
    change: ActiveModelView,
    insert: bool,
    now: Timestamp,
    cfg: PolicyConfig,
    token: Seq<char>,
)
    requires
        change.link_hash_expires_at is Assigned,
        !change.reissues(),
        !change.withdraws(),
    ensures
        change.finalized(insert, now, cfg, token).link_hash_expires_at == ActiveValue::NotSet::<
            Option<Timestamp>,
        >,
        change.finalized(insert, now, cfg, token).link_hash == change.link_hash,
        !(change.finalized(insert, now, cfg, token).link_hash is Assigned),
{
}

/// In a saved change the token and its expiry are written together or not
/// at all: the expiry is written exactly when the token is, present with
/// present and absent with absent.
pub proof fn lemma_token_and_expiry_go_together(
    change: ActiveModelView,
    insert: bool,
    now: Timestamp,
    cfg: PolicyConfig,
    token: Seq<char>,
)
    ensures
        ({
            let saved = change.finalized(insert, now, cfg, token);
            &&& saved.link_hash.writes_some() <==> saved.link_hash_expires_at.writes_some()
            &&& saved.link_hash.writes_none() <==> saved.link_hash_expires_at.writes_none()
            &&& saved.link_hash is Assigned <==> saved.link_hash_expires_at is Assigned
        }),
{
}

} // verus!
