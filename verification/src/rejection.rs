//! Why a change was not approved.

use vstd::prelude::*;

verus! {

/// The kinds of record that the write policy knows.
#[derive(Clone, Copy, Debug, PartialEq, Eq, Structural)]
pub enum EntityKind {
    /// A password credential.
    Credential,
    /// A magic-link credential.
    MagicLinkCredential,
    /// An API key pair.
    ApiKeyCredential,
    /// A key pair of the public-key infrastructure.
    PkiKey,
    /// A user account with its lockout state.
    User,
    /// An e-mail address that can be verified.
    Email,
    /// A phone number that can be verified.
    Phone,
    /// A user's profile.
    UserProfile,
    /// A record that is only stamped with the time of the write.
    Plain,
}

/// The reason for which a change is refused.
#[derive(Clone, Copy, Debug, PartialEq, Eq, Structural)]
pub enum RejectionReason {
    /// Every reference to an owner that the record may carry is absent.
    MissingOwner { entity_kind: EntityKind },
    /// The cipher could not produce a hash.
    InternalCryptoFailure,
}

} // verus!
