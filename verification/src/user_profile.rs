//! Profiles of users, and the placeholder for a missing username.

use vstd::prelude::*;
use crate::active_value::ActiveValue;
use crate::ident::{is_random_id, new_v4};
use crate::rejection::RejectionReason;
use crate::timestamp::Timestamp;
use crate::token::is_digit;

verus! {

/// `text` ends in a hyphen and four digits, as a numbered name does.
pub open spec fn is_numbered_name(text: Seq<char>) -> bool {
    &&& text.len() >= 5
    &&& text[text.len() - 5] == '-'
    &&& forall|i: int| text.len() - 4 <= i < text.len() ==> is_digit(#[trigger] text[i])
}

/// `names::Generator::with_naming(Name::Numbered)`, asked for its next name:
/// there always is one, of an adjective, a noun and a number of four digits
/// with hyphens between them. Which one is random.
#[verifier::external_body]
fn numbered_name() -> (name: Option<String>)
    ensures
        name is Some,
        is_numbered_name(name->Some_0@),
{
    names::Generator::with_naming(names::Name::Numbered).next()
}

/// A pending change to a user's profile.
#[derive(Clone, Debug, PartialEq, Eq)]
pub struct ActiveModel {
    pub id: ActiveValue<u128>,
    pub user_id: ActiveValue<u128>,
    pub username: ActiveValue<Option<String>>,
    pub profile_image_file_id: ActiveValue<Option<u128>>,
    pub name: ActiveValue<String>,
    pub notes: ActiveValue<Option<String>>,
    pub created_at: ActiveValue<Timestamp>,
    pub updated_at: ActiveValue<Timestamp>,
}

/// What an `ActiveModel` stands for: the same columns, with text as
/// sequences of characters.
pub struct ActiveModelView {
    pub id: ActiveValue<u128>,
    pub user_id: ActiveValue<u128>,
    pub username: ActiveValue<Option<Seq<char>>>,
    pub profile_image_file_id: ActiveValue<Option<u128>>,
    pub name: ActiveValue<Seq<char>>,
    pub notes: ActiveValue<Option<Seq<char>>>,
    pub created_at: ActiveValue<Timestamp>,
    pub updated_at: ActiveValue<Timestamp>,
}

impl View for ActiveModel {
    type V = ActiveModelView;

    open spec fn view(&self) -> ActiveModelView {
        ActiveModelView {
            id: self.id,
            user_id: self.user_id,
            username: self.username.deep_view(),
            profile_image_file_id: self.profile_image_file_id,
            name: self.name.deep_view(),
            notes: self.notes.deep_view(),
            created_at: self.created_at,
            updated_at: self.updated_at,
        }
    }
}

impl ActiveModelView {
    /// The change writes an absent username.
    pub open spec fn lacks_username(self) -> bool {
        self.username.writes_none()
    }

    /// The username that the change writes, if it writes a present one.
    pub open spec fn written_username(self) -> Option<Seq<char>> {
        match self.username {
            ActiveValue::Assigned(name) => name,
            _ => None,
        }
    }

    /// The change as it is handed to storage at `now`, where `placeholder` is
    /// the name that an absent username is replaced with.
    pub open spec fn finalized(self, insert: bool, now: Timestamp, placeholder: Option<Seq<char>>) -> ActiveModelView {
        ActiveModelView {
            username: if self.lacks_username() {
                ActiveValue::Assigned(placeholder)
            } else {
                self.username
            },
            created_at: if insert {
                ActiveValue::Assigned(now)
            } else {
                self.created_at
            },
            updated_at: ActiveValue::Assigned(now),
            ..self
        }
    }

    /// A change that creates a profile identified by `id` at `now`.
    pub open spec fn created(id: u128, now: Timestamp) -> ActiveModelView {
        ActiveModelView {
            id: ActiveValue::Assigned(id),
            user_id: ActiveValue::NotSet,
            username: ActiveValue::NotSet,
            profile_image_file_id: ActiveValue::NotSet,
            name: ActiveValue::NotSet,
            notes: ActiveValue::NotSet,
            created_at: ActiveValue::Assigned(now),
            updated_at: ActiveValue::Assigned(now),
        }
    }
}

/// What `before_save` may return for `change`: the finalized change for the
/// username that it carries, which is a numbered name where the caller wrote
/// an absent one.
pub open spec fn is_saved(
    outcome: Result<ActiveModel, RejectionReason>,
    change: ActiveModelView,
    insert: bool,
    now: Timestamp,
) -> bool {
    &&& outcome matches Ok(saved)
    &&& saved@ == change.finalized(insert, now, saved@.written_username())
    &&& change.lacks_username() ==> (saved@.written_username() matches Some(name)
        && is_numbered_name(name))
}

impl ActiveModel {
    /// A change that creates a profile with a fresh identifier at `now`.
    pub fn new(now: Timestamp) -> (r: ActiveModel)
        ensures
            r.id is Assigned && is_random_id(r.id->Assigned_0),
            r@ == ActiveModelView::created(r.id->Assigned_0, now),
    {
        ActiveModel {
            id: ActiveValue::Assigned(new_v4()),
            user_id: ActiveValue::NotSet,
            username: ActiveValue::NotSet,
            profile_image_file_id: ActiveValue::NotSet,
            name: ActiveValue::NotSet,
            notes: ActiveValue::NotSet,
            created_at: ActiveValue::Assigned(now),
            updated_at: ActiveValue::Assigned(now),
        }
    }

    /// Tests whether the change writes an absent username.
    pub fn lacks_username(&self) -> (r: bool)
        ensures
            r == self@.lacks_username(),
    {
        self.username.sets_none()
    }

    /// Applies the write policy to the change, with `placeholder` as the name
    /// that an absent username is replaced with.
    pub fn before_save_with(self, insert: bool, now: Timestamp, placeholder: Option<String>) -> (r:
        ActiveModel)
        ensures
            r@ == self@.finalized(insert, now, placeholder.deep_view()),
    {
        let lacks_username = self.lacks_username();
        let mut change = self;
        if insert {
            change.created_at = ActiveValue::Assigned(now);
        }
        change.updated_at = ActiveValue::Assigned(now);
        if lacks_username {
            change.username = ActiveValue::Assigned(placeholder);
        }
        change
    }

    /// Applies the write policy to the change: stamps it with `now`, and
    /// replaces an absent username that the caller wrote by a random
    /// numbered name.
    pub fn before_save(self, insert: bool, now: Timestamp) -> (r: Result<ActiveModel, RejectionReason>)
        ensures
            is_saved(r, self@, insert, now),
    {
        let placeholder = if self.lacks_username() {
            numbered_name()
        } else {
            None
        };
        Ok(self.before_save_with(insert, now, placeholder))
    }
}

} // verus!
