//! The state of one column in a pending change.

use vstd::prelude::*;

verus! {

/// One column of a pending change: a new value to write, the value that is
/// already stored, or nothing at all.
#[derive(Clone, Debug, PartialEq, Eq)]
pub enum ActiveValue<T> {
    /// The column is being written with this value.
    Assigned(T),
    /// The column is not being written; this is the stored value.
    Unchanged(T),
    /// The column is not part of the change and its stored value is unknown.
    NotSet,
}

/// A column is viewed through the view of what it carries: a column of text
/// as a column of character sequences.
impl<T: DeepView> DeepView for ActiveValue<T> {
    type V = ActiveValue<T::V>;

    open spec fn deep_view(&self) -> ActiveValue<T::V> {
        match *self {
            ActiveValue::Assigned(v) => ActiveValue::Assigned(v.deep_view()),
            ActiveValue::Unchanged(v) => ActiveValue::Unchanged(v.deep_view()),
            ActiveValue::NotSet => ActiveValue::NotSet,
        }
    }
}

impl<T> ActiveValue<T> {
    /// The value that the column carries, written or stored.
    pub open spec fn value(self) -> Option<T> {
        match self {
            ActiveValue::Assigned(v) => Some(v),
            ActiveValue::Unchanged(v) => Some(v),
            ActiveValue::NotSet => None,
        }
    }

    /// The column is being written.
    pub open spec fn spec_is_set(&self) -> bool {
        *self is Assigned
    }

    /// True when the column is being written.
    #[verifier::when_used_as_spec(spec_is_set)]
    pub fn is_set(&self) -> (r: bool)
        ensures
            r == (*self is Assigned),
    {
        match self {
            ActiveValue::Assigned(_) => true,
            _ => false,
        }
    }

    /// The column carries the stored value.
    pub open spec fn spec_is_unchanged(&self) -> bool {
        *self is Unchanged
    }

    /// True when the column carries the stored value and is not being written.
    #[verifier::when_used_as_spec(spec_is_unchanged)]
    pub fn is_unchanged(&self) -> (r: bool)
        ensures
            r == (*self is Unchanged),
    {
        match self {
            ActiveValue::Unchanged(_) => true,
            _ => false,
        }
    }

    /// The column is not part of the change.
    pub open spec fn spec_is_not_set(&self) -> bool {
        *self is NotSet
    }

    /// True when the column is not part of the change.
    #[verifier::when_used_as_spec(spec_is_not_set)]
    pub fn is_not_set(&self) -> (r: bool)
        ensures
            r == (*self is NotSet),
    {
        match self {
            ActiveValue::NotSet => true,
            _ => false,
        }
    }

    /// The column once a write to it is taken out of the change: a column that
    /// is being written becomes one that is not part of the change, and any
    /// other stays.
    pub open spec fn without_write(self) -> ActiveValue<T> {
        match self {
            ActiveValue::Assigned(_) => ActiveValue::NotSet,
            ActiveValue::Unchanged(v) => ActiveValue::Unchanged(v),
            ActiveValue::NotSet => ActiveValue::NotSet,
        }
    }

    /// Takes a write to the column out of the change.
    pub fn drop_write(self) -> (r: ActiveValue<T>)
        ensures
            r == self.without_write(),
    {
        match self {
            ActiveValue::Assigned(_) => ActiveValue::NotSet,
            ActiveValue::Unchanged(v) => ActiveValue::Unchanged(v),
            ActiveValue::NotSet => ActiveValue::NotSet,
        }
    }

    /// The value that the column carries, if it carries one.
    pub fn get(&self) -> (r: Option<&T>)
        ensures
            r == match *self {
                ActiveValue::Assigned(v) => Some(&v),
                ActiveValue::Unchanged(v) => Some(&v),
                ActiveValue::NotSet => None,
            },
    {
        match self {
            ActiveValue::Assigned(v) => Some(v),
            ActiveValue::Unchanged(v) => Some(v),
            ActiveValue::NotSet => None,
        }
    }

    /// The value that the column carries.
    pub fn as_ref(&self) -> (r: &T)
        requires
            !(*self is NotSet),
        ensures
            Some(*r) == self.value(),
    {
        match self {
            ActiveValue::Assigned(v) => v,
            ActiveValue::Unchanged(v) => v,
            ActiveValue::NotSet => unreached(),
        }
    }
}

impl<T> ActiveValue<Option<T>> {
    /// The column carries a value, written or stored, and that value is
    /// present.
    pub open spec fn holds_some(self) -> bool {
        self.value() matches Some(Some(_))
    }

    /// The column is being written with a present value.
    pub open spec fn writes_some(self) -> bool {
        self matches ActiveValue::Assigned(Some(_))
    }

    /// The column is being written with an absent value.
    pub open spec fn writes_none(self) -> bool {
        self matches ActiveValue::Assigned(None)
    }

    /// Tests `writes_some`.
    pub fn sets_some(&self) -> (r: bool)
        ensures
            r == self.writes_some(),
    {
        match self {
            ActiveValue::Assigned(Some(_)) => true,
            _ => false,
        }
    }

    /// Tests `writes_none`.
    pub fn sets_none(&self) -> (r: bool)
        ensures
            r == self.writes_none(),
    {
        match self {
            ActiveValue::Assigned(None) => true,
            _ => false,
        }
    }

    /// Tests `holds_some`.
    pub fn has_some(&self) -> (r: bool)
        ensures
            r == self.holds_some(),
    {
        match self {
            ActiveValue::Assigned(Some(_)) => true,
            ActiveValue::Unchanged(Some(_)) => true,
            _ => false,
        }
    }
}

} // verus!
