//! Password credentials: the stored hash, its cipher, and password resets.

use vstd::prelude::*;
use crate::active_value::ActiveValue;
use crate::config::PolicyConfig;
use crate::expiry::{expiry_for, expiry_of, ExpiryKind};
use crate::ident::{is_random_id, new_v4};
use crate::rejection::{EntityKind, RejectionReason};
use crate::timestamp::Timestamp;
use crate::token::{decimal, digit_char, generate, generate_code, is_token, to_decimal, Charset};

verus! {

/// The one-way function under which a password is stored.
#[derive(Clone, Copy, Debug, PartialEq, Eq, Structural)]
pub enum PassHashCipher {
    Bcrypt,
}

/// What `bcrypt::verify` returns for a password and a hash string: whether
/// they match, or nothing where it reports an error.
pub uninterp spec fn bcrypt_verdict(password: Seq<char>, hash: Seq<char>) -> Option<bool>;

/// `text` has the shape of a bcrypt hash of version 2b with the given cost:
/// sixty characters that begin with `$2b$`, the cost in two digits and `$`.
pub open spec fn is_bcrypt_text(text: Seq<char>, cost: u32) -> bool {
    &&& text.len() == 60
    &&& text[0] == '$'
    &&& text[1] == '2'
    &&& text[2] == 'b'
    &&& text[3] == '$'
    &&& text[4] == digit_char((cost / 10) as nat)
    &&& text[5] == digit_char((cost % 10) as nat)
    &&& text[6] == '$'
}

/// `hash` is a bcrypt hash of `password` at the given cost: it has the shape
/// of one, and the password verifies against it.
pub open spec fn is_hash_of(hash: Seq<char>, password: Seq<char>, cost: u32) -> bool {
    is_bcrypt_text(hash, cost) && bcrypt_verdict(password, hash) == Some(true)
}

/// `bcrypt::BcryptError`, carried from the cipher to where it is turned into
/// a refusal.
#[verifier::external_type_specification]
#[verifier::external_body]
pub struct ExBcryptError(bcrypt::BcryptError);

/// `bcrypt::hash_with_result`, formatted by `HashParts::format_for_version`
/// as version 2b. A cost outside 4 to 31 is an error. A hash that comes back
/// has the shape of a bcrypt hash with that cost, and `bcrypt::verify`
/// accepts the password against it. The salt is random, and drawing it may
/// fail, so success is not promised.
#[verifier::external_body]
fn bcrypt_hash(password: &str, cost: u32) -> (r: Result<String, bcrypt::BcryptError>)
    ensures
        !(4 <= cost <= 31) ==> r is Err,
        r matches Ok(hash) ==> is_hash_of(hash@, password@, cost),
{
    match bcrypt::hash_with_result(password, cost) {
        Ok(parts) => Ok(parts.format_for_version(bcrypt::Version::TwoB)),
        Err(error) => Err(error),
    }
}

/// `bcrypt::verify`: its answer is the verdict on the password and the hash.
#[verifier::external_body]
fn bcrypt_verify(password: &str, hash: &str) -> (r: Result<bool, bcrypt::BcryptError>)
    ensures
        match r {
            Ok(matches) => bcrypt_verdict(password@, hash@) == Some(matches),
            Err(_) => bcrypt_verdict(password@, hash@) is None,
        },
{
    bcrypt::verify(password, hash)
}

/// What `hash_pass` may return for `pass` at the given cost.
///
/// No password gives no hash. A password gives a hash of it that is not the
/// password itself, or the failure of the cipher; with a cost that the cipher
/// does not accept, the failure.
pub open spec fn is_hash_outcome(
    outcome: Result<Option<String>, RejectionReason>,
    pass: Option<String>,
    cost: u32,
) -> bool {
    match pass {
        None => outcome == Ok::<Option<String>, RejectionReason>(None),
        Some(password) => match outcome {
            Ok(Some(hash)) => is_hash_of(hash@, password@, cost) && hash@ != password@ && 4 <= cost
                <= 31,
            Ok(None) => false,
            Err(reason) => reason == RejectionReason::InternalCryptoFailure,
        },
    }
}

/// What is stored for `password` once the cipher has answered with `drawn`: the
/// hash that it produced, unless that hash is the password itself, which
/// counts as a failure of the cipher like every error of it.
pub fn stored_hash(password: &String, drawn: Result<String, bcrypt::BcryptError>) -> (r: Result<
    Option<String>,
    RejectionReason,
>)
    ensures
        match drawn {
            Ok(hash) => if hash@ == password@ {
                r == Err::<Option<String>, RejectionReason>(RejectionReason::InternalCryptoFailure)
            } else {
                r == Ok::<Option<String>, RejectionReason>(Some(hash))
            },
            Err(_) => r == Err::<Option<String>, RejectionReason>(
                RejectionReason::InternalCryptoFailure,
            ),
        },
{
    match drawn {
        Ok(hash) => {
            if hash == *password {
                Err(RejectionReason::InternalCryptoFailure)
            } else {
                Ok(Some(hash))
            }
        },
        Err(_) => Err(RejectionReason::InternalCryptoFailure),
    }
}

/// The hash under which `pass` is stored; none for no password. For a
/// password the cipher is asked once, with the password and the cost as they
/// came, and `stored_hash` decides on its answer.
pub fn hash_pass(pass: &Option<String>, cipher: &PassHashCipher, cost: u32) -> (r: Result<
    Option<String>,
    RejectionReason,
>)
    ensures
        is_hash_outcome(r, *pass, cost),
{
    match pass {
        None => Ok(None),
        Some(password) => match cipher {
            PassHashCipher::Bcrypt => stored_hash(password, bcrypt_hash(password.as_str(), cost)),
        },
    }
}

/// The answer of `verify_pass_hash`: the password and the hash are both
/// there, and the cipher finds that they match.
pub open spec fn verifies(pass: Option<Seq<char>>, hash: Option<Seq<char>>) -> bool {
    match (pass, hash) {
        (Some(password), Some(stored)) => bcrypt_verdict(password, stored) == Some(true),
        _ => false,
    }
}

/// Whether `pass` is the password behind `hash`. An absent password or hash
/// matches nothing, and neither does a hash that the cipher cannot read.
pub fn verify_pass_hash(pass: Option<String>, hash: Option<&String>, cipher: &PassHashCipher) -> (r:
    bool)
    ensures
        r == verifies(pass.deep_view(), hash.deep_view()),
{
    match (pass, hash) {
        (Some(password), Some(stored)) => match cipher {
            PassHashCipher::Bcrypt => match bcrypt_verify(password.as_str(), stored.as_str()) {
                Ok(matches) => matches,
                Err(_) => false,
            },
        },
        _ => false,
    }
}

/// A hash that `hash_pass` hands out for a password is not the password, and
/// `verify_pass_hash` answers true for the two.
pub proof fn lemma_hash_verifies(
    outcome: Result<Option<String>, RejectionReason>,
    pass: Option<String>,
    cost: u32,
)
    requires
        is_hash_outcome(outcome, pass, cost),
        outcome matches Ok(Some(_)),
    ensures
        pass is Some,
        verifies(pass.deep_view(), outcome->Ok_0.deep_view()),
        outcome->Ok_0->Some_0@ != pass->Some_0@,
{
}

/// A fresh reset string of letters and digits, and a fresh reset code.
pub fn gen_pass_reset_codes(cfg: &PolicyConfig) -> (codes: (String, u32))
    requires
        cfg.is_valid(),
    ensures
        is_token(codes.0@, cfg.pass_reset_str_size as nat, Charset::Alphanumeric),
        1 <= codes.1 < cfg.pass_reset_code_limit,
{
    let reset_str = generate(cfg.pass_reset_str_size, Charset::Alphanumeric);
    let reset_code = generate_code(cfg.pass_reset_code_limit);
    (reset_str, reset_code)
}

/// `text` is a reset code below `limit`, written in decimal.
pub open spec fn is_reset_code(text: Seq<char>, limit: u32) -> bool {
    exists|n: nat| 1 <= n < limit && text == #[trigger] decimal(n)
}

/// A pending change to a password credential.
#[derive(Clone, Debug, PartialEq, Eq)]
pub struct ActiveModel {
    pub id: ActiveValue<u128>,
    pub user_id: ActiveValue<u128>,
    /// The password as the caller writes it; the hash once the change is
    /// approved.
    pub pass_hash: ActiveValue<Option<String>>,
    pub pass_hash_cipher: ActiveValue<PassHashCipher>,
    pub pass_last_changed_at: ActiveValue<Timestamp>,
    pub force_pass_change: ActiveValue<bool>,
    /// The short reset code, for a text message.
    pub pass_reset_code: ActiveValue<Option<String>>,
    /// The long reset string, for a link.
    pub pass_reset_str: ActiveValue<Option<String>>,
    pub pass_reset_code_expires_at: ActiveValue<Option<Timestamp>>,
    pub created_at: ActiveValue<Timestamp>,
    pub updated_at: ActiveValue<Timestamp>,
}

/// What an `ActiveModel` stands for: the same columns, with text as
/// sequences of characters.
pub struct ActiveModelView {
    pub id: ActiveValue<u128>,
    pub user_id: ActiveValue<u128>,
    pub pass_hash: ActiveValue<Option<Seq<char>>>,
    pub pass_hash_cipher: ActiveValue<PassHashCipher>,
    pub pass_last_changed_at: ActiveValue<Timestamp>,
    pub force_pass_change: ActiveValue<bool>,
    pub pass_reset_code: ActiveValue<Option<Seq<char>>>,
    pub pass_reset_str: ActiveValue<Option<Seq<char>>>,
    pub pass_reset_code_expires_at: ActiveValue<Option<Timestamp>>,
    pub created_at: ActiveValue<Timestamp>,
    pub updated_at: ActiveValue<Timestamp>,
}

impl View for ActiveModel {
    type V = ActiveModelView;

    open spec fn view(&self) -> ActiveModelView {
        ActiveModelView {
            id: self.id,
            user_id: self.user_id,
            pass_hash: self.pass_hash.deep_view(),
            pass_hash_cipher: self.pass_hash_cipher,
            pass_last_changed_at: self.pass_last_changed_at,
            force_pass_change: self.force_pass_change,
            pass_reset_code: self.pass_reset_code.deep_view(),
            pass_reset_str: self.pass_reset_str.deep_view(),
            pass_reset_code_expires_at: self.pass_reset_code_expires_at,
            created_at: self.created_at,
            updated_at: self.updated_at,
        }
    }
}

/// The text that a column writes, or none.
pub open spec fn written_text(column: ActiveValue<Option<Seq<char>>>) -> Option<Seq<char>> {
    match column {
        ActiveValue::Assigned(Some(text)) => Some(text),
        _ => None,
    }
}

impl ActiveModelView {
    /// The password that the change writes, or none.
    pub open spec fn plaintext(self) -> Option<Seq<char>> {
        written_text(self.pass_hash)
    }

    /// The change clears the stored hash: it writes an absent password, or it
    /// is an update that writes the cipher and does not write the password.
    pub open spec fn clears_secret(self, insert: bool) -> bool {
        ||| self.pass_hash.writes_none()
        ||| !insert && self.pass_hash_cipher is Assigned && !(self.pass_hash is Assigned)
    }

    /// The change asks for a password reset: it writes a reset code or a
    /// reset string.
    pub open spec fn reissues_reset(self) -> bool {
        self.pass_reset_code.writes_some() || self.pass_reset_str.writes_some()
    }

    /// The change withdraws the password reset: it writes an absent reset
    /// code or string, and no reset code or string remains.
    pub open spec fn withdraws_reset(self) -> bool {
        &&& self.pass_reset_code.writes_none() || self.pass_reset_str.writes_none()
        &&& !self.pass_reset_code.holds_some()
        &&& !self.pass_reset_str.holds_some()
    }

    /// The outcome of the write policy at `now`, where `hashed` is the hash
    /// of the password that the change writes, or none if the cipher failed,
    /// and `reset_code` and `reset_str` are what the server issues for a
    /// password reset.
    ///
    /// A credential without a user is refused. A password is stored as its
    /// hash, and is refused if it cannot be hashed: the cipher failed, or the
    /// change names none. A reset code or string that the caller wrote is
    /// replaced by the server's, and expires one validity window after `now`.
    /// An expiry that the caller wrote without asking for a reset or
    /// withdrawing it is taken out of the change: the expiry is only ever
    /// written together with a reset code or string.
    /// Whenever the stored hash is written, so is the time of its change.
    pub open spec fn finalized(
        self,
        insert: bool,
        now: Timestamp,
        cfg: PolicyConfig,
        hashed: Option<Seq<char>>,
        reset_code: Seq<char>,
        reset_str: Seq<char>,
    ) -> Result<ActiveModelView, RejectionReason> {
        if self.user_id is NotSet {
            Err(RejectionReason::MissingOwner { entity_kind: EntityKind::Credential })
        } else if self.plaintext() is Some && (self.pass_hash_cipher is NotSet || hashed is None) {
            Err(RejectionReason::InternalCryptoFailure)
        } else {
            Ok(
                ActiveModelView {
                    pass_hash: if self.plaintext() is Some {
                        ActiveValue::Assigned(hashed)
                    } else if self.clears_secret(insert) {
                        ActiveValue::Assigned(None)
                    } else {
                        self.pass_hash
                    },
                    pass_last_changed_at: if self.plaintext() is Some || self.clears_secret(insert)
                        || self.pass_last_changed_at is Assigned {
                        ActiveValue::Assigned(now)
                    } else {
                        self.pass_last_changed_at
                    },
                    pass_reset_code: if self.pass_reset_code.writes_some() {
                        ActiveValue::Assigned(Some(reset_code))
                    } else {
                        self.pass_reset_code
                    },
                    pass_reset_str: if self.pass_reset_str.writes_some() {
                        ActiveValue::Assigned(Some(reset_str))
                    } else {
                        self.pass_reset_str
                    },
                    pass_reset_code_expires_at: if self.reissues_reset() {
                        ActiveValue::Assigned(Some(expiry_of(ExpiryKind::PasswordReset, now, cfg)))
                    } else if self.withdraws_reset() {
                        ActiveValue::Assigned(None)
                    } else {
                        self.pass_reset_code_expires_at.without_write()
                    },
                    created_at: if insert {
                        ActiveValue::Assigned(now)
                    } else {
                        self.created_at
                    },
                    updated_at: ActiveValue::Assigned(now),
                    ..self
                },
            )
        }
    }

    /// The clock and the configuration allow the change to be saved at
    /// `now`: if it asks for a password reset, reset codes can be drawn and
    /// the reset's expiry is representable.
    pub open spec fn savable(self, now: Timestamp, cfg: PolicyConfig) -> bool {
        self.reissues_reset() ==> cfg.is_valid() && now.can_advance(
            ExpiryKind::PasswordReset.window_minutes(cfg),
        )
    }

    /// A change that creates a credential identified by `id` at `now`.
    pub open spec fn created(id: u128, now: Timestamp) -> ActiveModelView {
        ActiveModelView {
            id: ActiveValue::Assigned(id),
            user_id: ActiveValue::NotSet,
            pass_hash: ActiveValue::NotSet,
            pass_hash_cipher: ActiveValue::NotSet,
            pass_last_changed_at: ActiveValue::NotSet,
            force_pass_change: ActiveValue::NotSet,
            pass_reset_code: ActiveValue::NotSet,
            pass_reset_str: ActiveValue::NotSet,
            pass_reset_code_expires_at: ActiveValue::NotSet,
            created_at: ActiveValue::Assigned(now),
            updated_at: ActiveValue::Assigned(now),
        }
    }
}

/// `outcome` is `expected`, read through the view of the approved change.
pub open spec fn is_outcome(
    outcome: Result<ActiveModel, RejectionReason>,
    expected: Result<ActiveModelView, RejectionReason>,
) -> bool {
    match outcome {
        Ok(saved) => expected == Ok::<ActiveModelView, RejectionReason>(saved@),
        Err(reason) => expected == Err::<ActiveModelView, RejectionReason>(reason),
    }
}

/// The text that a column writes, or no text.
pub open spec fn text_or_empty(column: ActiveValue<Option<Seq<char>>>) -> Seq<char> {
    match written_text(column) {
        Some(text) => text,
        None => Seq::empty(),
    }
}

/// What `before_save` may return for `change`.
///
/// An approved change is the finalized one for the hash, the reset code and
/// the reset string that it carries. The hash is one of the password that the
/// caller wrote and differs from it; the reset code is a number below the
/// configured limit; the reset string is made of letters and digits. A
/// refusal is for the missing owner, or else for a password that could not be
/// hashed.
pub open spec fn is_saved(
    outcome: Result<ActiveModel, RejectionReason>,
    change: ActiveModelView,
    insert: bool,
    now: Timestamp,
    cfg: PolicyConfig,
) -> bool {
    match outcome {
        Ok(saved) => {
            &&& change.finalized(
                insert,
                now,
                cfg,
                written_text(saved@.pass_hash),
                text_or_empty(saved@.pass_reset_code),
                text_or_empty(saved@.pass_reset_str),
            ) == Ok::<ActiveModelView, RejectionReason>(saved@)
            &&& change.plaintext() matches Some(password) ==> {
                &&& written_text(saved@.pass_hash) matches Some(hash)
                &&& is_hash_of(hash, password, cfg.bcrypt_cost)
                &&& hash != password
                &&& 4 <= cfg.bcrypt_cost <= 31
            }
            &&& change.pass_reset_code.writes_some() ==> is_reset_code(
                text_or_empty(saved@.pass_reset_code),
                cfg.pass_reset_code_limit,
            )
            &&& change.pass_reset_str.writes_some() ==> is_token(
                text_or_empty(saved@.pass_reset_str),
                cfg.pass_reset_str_size as nat,
                Charset::Alphanumeric,
            )
        },
        Err(reason) => if change.user_id is NotSet {
            reason == (RejectionReason::MissingOwner { entity_kind: EntityKind::Credential })
        } else {
            reason == RejectionReason::InternalCryptoFailure && change.plaintext() is Some
        },
    }
}

impl ActiveModel {
    /// A change that creates a credential with a fresh identifier at `now`.
    pub fn new(now: Timestamp) -> (r: ActiveModel)
        ensures
            r.id is Assigned && is_random_id(r.id->Assigned_0),
            r@ == ActiveModelView::created(r.id->Assigned_0, now),
    {
        ActiveModel {
            id: ActiveValue::Assigned(new_v4()),
            user_id: ActiveValue::NotSet,
            pass_hash: ActiveValue::NotSet,
            pass_hash_cipher: ActiveValue::NotSet,
            pass_last_changed_at: ActiveValue::NotSet,
            force_pass_change: ActiveValue::NotSet,
            pass_reset_code: ActiveValue::NotSet,
            pass_reset_str: ActiveValue::NotSet,
            pass_reset_code_expires_at: ActiveValue::NotSet,
            created_at: ActiveValue::Assigned(now),
            updated_at: ActiveValue::Assigned(now),
        }
    }

    /// Tests whether the clock and the configuration allow the change to be
    /// saved at `now`.
    pub fn can_save(&self, now: Timestamp, cfg: &PolicyConfig) -> (r: bool)
        ensures
            r == self@.savable(now, *cfg),
    {
        !self.reissues_reset() || (cfg.check_valid() && now.check_can_advance(
            ExpiryKind::PasswordReset.minutes(cfg),
        ))
    }

    /// Tests whether the change clears the stored hash.
    pub fn clears_secret(&self, insert: bool) -> (r: bool)
        ensures
            r == self@.clears_secret(insert),
    {
        self.pass_hash.sets_none() || (!insert && self.pass_hash_cipher.is_set()
            && !self.pass_hash.is_set())
    }

    /// Tests whether the change asks for a password reset.
    pub fn reissues_reset(&self) -> (r: bool)
        ensures
            r == self@.reissues_reset(),
    {
        self.pass_reset_code.sets_some() || self.pass_reset_str.sets_some()
    }

    /// Tests whether the change withdraws the password reset.
    pub fn withdraws_reset(&self) -> (r: bool)
        ensures
            r == self@.withdraws_reset(),
    {
        (self.pass_reset_code.sets_none() || self.pass_reset_str.sets_none())
            && !self.pass_reset_code.has_some() && !self.pass_reset_str.has_some()
    }

    /// Applies the write policy to the change, with `hashed` as the hash of
    /// the password that the change writes, or none if the cipher failed, and
    /// with `reset_code` and `reset_str` as what the server issues for a
    /// password reset.
    pub fn before_save_with(
        self,
        insert: bool,
        now: Timestamp,
        cfg: &PolicyConfig,
        hashed: Option<String>,
        reset_code: String,
        reset_str: String,
    ) -> (r: Result<ActiveModel, RejectionReason>)
        requires
            self@.reissues_reset() ==> now.can_advance(
                ExpiryKind::PasswordReset.window_minutes(*cfg),
            ),
        ensures
            is_outcome(
                r,
                self@.finalized(insert, now, *cfg, hashed.deep_view(), reset_code@, reset_str@),
            ),
    {
        if self.user_id.is_not_set() {
            return Err(RejectionReason::MissingOwner { entity_kind: EntityKind::Credential });
        }
        let writes_password = self.pass_hash.sets_some();
        if writes_password && (self.pass_hash_cipher.is_not_set() || hashed.is_none()) {
            return Err(RejectionReason::InternalCryptoFailure);
        }
        let clears_secret = self.clears_secret(insert);
        let reissues_reset = self.reissues_reset();
        let withdraws_reset = self.withdraws_reset();
        let mut change = self;
        if insert {
            change.created_at = ActiveValue::Assigned(now);
        }
        change.updated_at = ActiveValue::Assigned(now);
        if writes_password {
            change.pass_hash = ActiveValue::Assigned(hashed);
        } else if clears_secret {
            change.pass_hash = ActiveValue::Assigned(None);
        }
        if writes_password || clears_secret || change.pass_last_changed_at.is_set() {
            change.pass_last_changed_at = ActiveValue::Assigned(now);
        }
        if change.pass_reset_code.sets_some() {
            change.pass_reset_code = ActiveValue::Assigned(Some(reset_code));
        }
        if change.pass_reset_str.sets_some() {
            change.pass_reset_str = ActiveValue::Assigned(Some(reset_str));
        }
        if reissues_reset {
            change.pass_reset_code_expires_at = ActiveValue::Assigned(
                Some(expiry_for(ExpiryKind::PasswordReset, now, cfg)),
            );
        } else if withdraws_reset {
            change.pass_reset_code_expires_at = ActiveValue::Assigned(None);
        } else {
            change.pass_reset_code_expires_at = change.pass_reset_code_expires_at.drop_write();
        }
        Ok(change)
    }

    /// Applies the write policy to the change: refuses a credential without a
    /// user, stamps the change with `now`, stores a password as its hash,
    /// clears the hash of an update that only names a cipher, replaces a
    /// reset code or string that the caller wrote by the server's, with its
    /// expiry, and takes an expiry that the caller wrote without a reset code
    /// or string out of the change.
    pub fn before_save(self, insert: bool, now: Timestamp, cfg: &PolicyConfig) -> (r: Result<
        ActiveModel,
        RejectionReason,
    >)
        requires
            self@.savable(now, *cfg),
        ensures
            is_saved(r, self@, insert, now, *cfg),
            !(self@.user_id is NotSet) && self@.plaintext() is None ==> r is Ok,
            self@.plaintext() is Some && (self@.pass_hash_cipher is NotSet || !(4 <= cfg.bcrypt_cost
                <= 31)) ==> r is Err,
    {
        if self.user_id.is_not_set() {
            return Err(RejectionReason::MissingOwner { entity_kind: EntityKind::Credential });
        }
        let hashed: Option<String> = match (&self.pass_hash, self.pass_hash_cipher.get()) {
            (ActiveValue::Assigned(pass), Some(cipher)) => match hash_pass(
                pass,
                cipher,
                cfg.bcrypt_cost,
            ) {
                Ok(hash) => hash,
                Err(reason) => {
                    return Err(reason);
                },
            },
            _ => None,
        };
        if self.reissues_reset() {
            let (reset_str, code) = gen_pass_reset_codes(cfg);
            let reset_code = to_decimal(code);
            self.before_save_with(insert, now, cfg, hashed, reset_code, reset_str)
        } else {
            self.before_save_with(insert, now, cfg, hashed, String::new(), String::new())
        }
    }
}

/// A password that a saved change wrote is stored as a hash that is not the
/// password, and `verify_pass_hash` answers true for the password and what
/// is stored.
pub proof fn lemma_password_is_stored_hashed(
    outcome: Result<ActiveModel, RejectionReason>,
    change: ActiveModelView,
    insert: bool,
    now: Timestamp,
    cfg: PolicyConfig,
)
    requires
        is_saved(outcome, change, insert, now, cfg),
        outcome is Ok,
        change.plaintext() is Some,
    ensures
        outcome->Ok_0@.pass_hash matches ActiveValue::Assigned(Some(stored)) && stored
            != change.plaintext()->Some_0 && verifies(change.plaintext(), Some(stored))
            && is_bcrypt_text(stored, cfg.bcrypt_cost),
{
}

/// A change is refused for its missing owner exactly when it names no user,
/// and otherwise refused only where it writes a password that cannot be
/// hashed.
pub proof fn lemma_refusals(
    change: ActiveModelView,
    insert: bool,
    now: Timestamp,
    cfg: PolicyConfig,
    hashed: Option<Seq<char>>,
    reset_code: Seq<char>,
    reset_str: Seq<char>,
)
    ensures
        ({
            let outcome = change.finalized(insert, now, cfg, hashed, reset_code, reset_str);
            &&& outcome == Err::<ActiveModelView, RejectionReason>(
                RejectionReason::MissingOwner { entity_kind: EntityKind::Credential },
            ) <==> change.user_id is NotSet
            &&& outcome == Err::<ActiveModelView, RejectionReason>(
                RejectionReason::InternalCryptoFailure,
            ) <==> !(change.user_id is NotSet) && change.plaintext() is Some && (
            change.pass_hash_cipher is NotSet || hashed is None)
        }),
{
}

/// An update that writes the cipher and not the password is saved with the
/// stored hash cleared, so that no old hash is read under a new cipher.
pub proof fn lemma_cipher_alone_clears_the_hash(
    change: ActiveModelView,
    now: Timestamp,
    cfg: PolicyConfig,
    hashed: Option<Seq<char>>,
    reset_code: Seq<char>,
    reset_str: Seq<char>,
)
    requires
        !(change.user_id is NotSet),
        change.pass_hash_cipher is Assigned,
        !(change.pass_hash is Assigned),
    ensures
        change.finalized(false, now, cfg, hashed, reset_code, reset_str) matches Ok(saved)
            && saved.pass_hash == ActiveValue::Assigned(None::<Seq<char>>)
            && saved.pass_hash_cipher == change.pass_hash_cipher && saved.pass_last_changed_at
            == ActiveValue::Assigned(now),
{
}

/// An expiry that the caller wrote in a change that neither asks for a
/// password reset nor withdraws it is not stored: the saved change does not
/// write the expiry, and leaves the reset code and string as they were.
pub proof fn lemma_expiry_alone_is_not_stored(
    change: ActiveModelView,
    insert: bool,
    now: Timestamp,
    cfg: PolicyConfig,
    hashed: Option<Seq<char>>,
    reset_code: Seq<char>,
    reset_str: Seq<char>,
)
    requires
        change.finalized(insert, now, cfg, hashed, reset_code, reset_str) is Ok,
        change.pass_reset_code_expires_at is Assigned,
        !change.reissues_reset(),
        !change.withdraws_reset(),
    ensures
        ({
            let saved = change.finalized(insert, now, cfg, hashed, reset_code, reset_str)->Ok_0;
            &&& saved.pass_reset_code_expires_at == ActiveValue::NotSet::<Option<Timestamp>>
            &&& saved.pass_reset_code == change.pass_reset_code
            &&& saved.pass_reset_str == change.pass_reset_str
        }),
{
}

/// A saved change writes the expiry of the reset only together with a reset
/// code or string: a present expiry where it writes a present code or
/// string, an absent one where it writes an absent code or string and none
/// remains, and otherwise none.
pub proof fn lemma_expiry_goes_with_the_reset(
    change: ActiveModelView,
    insert: bool,
    now: Timestamp,
    cfg: PolicyConfig,
    hashed: Option<Seq<char>>,
    reset_code: Seq<char>,
    reset_str: Seq<char>,
)
    requires
        change.finalized(insert, now, cfg, hashed, reset_code, reset_str) is Ok,
    ensures
        ({
            let saved = change.finalized(insert, now, cfg, hashed, reset_code, reset_str)->Ok_0;
            &&& saved.pass_reset_code_expires_at.writes_some() <==> saved.pass_reset_code.writes_some()
                || saved.pass_reset_str.writes_some()
            &&& saved.pass_reset_code_expires_at.writes_none() <==> change.withdraws_reset()
            &&& saved.pass_reset_code_expires_at is Assigned ==> saved.pass_reset_code is Assigned
                || saved.pass_reset_str is Assigned
        }),
{
}

/// A saved change that writes a present reset code or string also writes
/// their expiry, one validity window after `now`; and whenever it writes the
/// stored hash, it writes `now` as the time of the last change.
pub proof fn lemma_reset_and_hash_carry_their_times(
    change: ActiveModelView,
    insert: bool,
    now: Timestamp,
    cfg: PolicyConfig,
    hashed: Option<Seq<char>>,
    reset_code: Seq<char>,
    reset_str: Seq<char>,
)
    requires
        change.finalized(insert, now, cfg, hashed, reset_code, reset_str) is Ok,
        change.reissues_reset() ==> now.can_advance(ExpiryKind::PasswordReset.window_minutes(cfg)),
    ensures
        ({
            let saved = change.finalized(insert, now, cfg, hashed, reset_code, reset_str)->Ok_0;
            &&& saved.pass_reset_code.writes_some() || saved.pass_reset_str.writes_some() ==> (saved.pass_reset_code_expires_at matches ActiveValue::Assigned(
                Some(expiry),
            ) && expiry.secs == now.secs + 3600 * cfg.pass_reset_valid_hours && expiry.nanos
                == now.nanos && (cfg.pass_reset_valid_hours > 0 ==> now.precedes(expiry)))
            &&& saved.pass_hash is Assigned && !(saved.pass_hash == change.pass_hash)
                ==> saved.pass_last_changed_at == ActiveValue::Assigned(now)
        }),
{
}

} // verus!
