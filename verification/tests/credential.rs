use entities::active_value::ActiveValue;
use entities::auth_method_pass::{
    gen_pass_reset_codes, hash_pass, stored_hash, verify_pass_hash, ActiveModel, PassHashCipher,
};
use entities::config::PolicyConfig;
use entities::rejection::{EntityKind, RejectionReason};
use entities::timestamp::{Timestamp, MAX_SECS};

const THEN: Timestamp = Timestamp { secs: 1_700_000_000, nanos: 0 };
const NOW: Timestamp = Timestamp { secs: 1_700_000_500, nanos: 250 };

fn quick() -> PolicyConfig {
    PolicyConfig { bcrypt_cost: 4, ..PolicyConfig::default() }
}

fn stored() -> ActiveModel {
    ActiveModel {
        id: ActiveValue::Unchanged(1),
        user_id: ActiveValue::Unchanged(2),
        pass_hash: ActiveValue::Unchanged(Some("$2b$04$old".to_string())),
        pass_hash_cipher: ActiveValue::Unchanged(PassHashCipher::Bcrypt),
        pass_last_changed_at: ActiveValue::Unchanged(THEN),
        force_pass_change: ActiveValue::Unchanged(false),
        pass_reset_code: ActiveValue::Unchanged(None),
        pass_reset_str: ActiveValue::Unchanged(None),
        pass_reset_code_expires_at: ActiveValue::Unchanged(None),
        created_at: ActiveValue::Unchanged(THEN),
        updated_at: ActiveValue::Unchanged(THEN),
    }
}

fn fresh() -> ActiveModel {
    let mut change = ActiveModel::new(THEN);
    change.user_id = ActiveValue::Assigned(2);
    change.pass_hash_cipher = ActiveValue::Assigned(PassHashCipher::Bcrypt);
    change
}

#[test]
fn an_inserted_password_is_stored_as_a_hash_that_verifies() {
    let mut change = fresh();
    change.pass_hash = ActiveValue::Assigned(Some("Secret123".to_string()));
    let saved = change.before_save(true, NOW, &quick()).unwrap();
    let hash = match &saved.pass_hash {
        ActiveValue::Assigned(Some(hash)) => hash.clone(),
        other => panic!("no hash was written: {:?}", other),
    };
    assert_ne!(hash, "Secret123");
    assert_eq!(hash.len(), 60);
    assert!(hash.starts_with("$2b$04$"));
    assert!(verify_pass_hash(Some("Secret123".to_string()), Some(&hash), &PassHashCipher::Bcrypt));
    assert!(!verify_pass_hash(Some("wrong".to_string()), Some(&hash), &PassHashCipher::Bcrypt));
    assert_eq!(saved.pass_last_changed_at, ActiveValue::Assigned(NOW));
    assert_eq!(saved.created_at, ActiveValue::Assigned(NOW));
    assert_eq!(saved.updated_at, ActiveValue::Assigned(NOW));
    assert_eq!(saved.user_id, ActiveValue::Assigned(2));
}

#[test]
fn hashing_twice_gives_two_hashes_of_one_password() {
    let pass = Some("correct horse".to_string());
    let first = hash_pass(&pass, &PassHashCipher::Bcrypt, 4).unwrap().unwrap();
    let second = hash_pass(&pass, &PassHashCipher::Bcrypt, 4).unwrap().unwrap();
    assert_ne!(first, second);
    assert!(verify_pass_hash(pass.clone(), Some(&first), &PassHashCipher::Bcrypt));
    assert!(verify_pass_hash(pass.clone(), Some(&second), &PassHashCipher::Bcrypt));
    assert!(bcrypt::verify("correct horse", &first).unwrap());
}

#[test]
fn the_cost_is_written_into_the_hash() {
    let pass = Some("p".to_string());
    let hash = hash_pass(&pass, &PassHashCipher::Bcrypt, 5).unwrap().unwrap();
    assert!(hash.starts_with("$2b$05$"));
    assert_eq!(hash.chars().count(), 60);
}

#[test]
fn no_password_gives_no_hash() {
    assert_eq!(hash_pass(&None, &PassHashCipher::Bcrypt, 4), Ok(None));
    assert_eq!(hash_pass(&None, &PassHashCipher::Bcrypt, 32), Ok(None));
}

#[test]
fn a_cost_that_the_cipher_refuses_is_a_failure() {
    let pass = Some("Secret123".to_string());
    for cost in [0u32, 3, 32, 100] {
        assert_eq!(
            hash_pass(&pass, &PassHashCipher::Bcrypt, cost),
            Err(RejectionReason::InternalCryptoFailure)
        );
    }
    let mut change = fresh();
    change.pass_hash = ActiveValue::Assigned(Some("Secret123".to_string()));
    let cfg = PolicyConfig { bcrypt_cost: 32, ..PolicyConfig::default() };
    assert_eq!(change.before_save(true, NOW, &cfg), Err(RejectionReason::InternalCryptoFailure));
}

#[test]
fn the_edges_of_the_cost_range() {
    let pass = Some("p".to_string());
    assert!(hash_pass(&pass, &PassHashCipher::Bcrypt, 4).unwrap().is_some());
    assert!(hash_pass(&pass, &PassHashCipher::Bcrypt, 3).is_err());
}

#[test]
fn verify_without_a_password_or_a_hash_is_false() {
    let hash = "$2b$04$EGdrhbKUv8Oc9vGiXX0HQOxSg445d458Muh7DAHskb6QbtCvdxcie".to_string();
    assert!(verify_pass_hash(
        Some("correctbatteryhorsestapler".to_string()),
        Some(&hash),
        &PassHashCipher::Bcrypt
    ));
    assert!(!verify_pass_hash(None, Some(&hash), &PassHashCipher::Bcrypt));
    assert!(!verify_pass_hash(
        Some("correctbatteryhorsestapler".to_string()),
        None,
        &PassHashCipher::Bcrypt
    ));
    assert!(!verify_pass_hash(None, None, &PassHashCipher::Bcrypt));
}

#[test]
fn verify_against_what_is_no_hash_is_false() {
    let broken = "not a hash".to_string();
    assert!(!verify_pass_hash(Some("x".to_string()), Some(&broken), &PassHashCipher::Bcrypt));
    let same = "Secret123".to_string();
    assert!(!verify_pass_hash(Some("Secret123".to_string()), Some(&same), &PassHashCipher::Bcrypt));
    let empty = String::new();
    assert!(!verify_pass_hash(Some(String::new()), Some(&empty), &PassHashCipher::Bcrypt));
}

#[test]
fn a_credential_without_a_user_is_refused() {
    let mut change = ActiveModel::new(THEN);
    change.pass_hash = ActiveValue::Assigned(Some("Secret123".to_string()));
    change.pass_hash_cipher = ActiveValue::Assigned(PassHashCipher::Bcrypt);
    let refusal = RejectionReason::MissingOwner { entity_kind: EntityKind::Credential };
    assert_eq!(change.clone().before_save(true, NOW, &quick()), Err(refusal));
    assert_eq!(change.before_save(false, NOW, &quick()), Err(refusal));
}

#[test]
fn a_password_without_a_cipher_is_refused() {
    let mut change = ActiveModel::new(THEN);
    change.user_id = ActiveValue::Assigned(2);
    change.pass_hash = ActiveValue::Assigned(Some("Secret123".to_string()));
    assert_eq!(
        change.before_save(true, NOW, &quick()),
        Err(RejectionReason::InternalCryptoFailure)
    );
}

#[test]
fn an_update_of_the_cipher_alone_clears_the_hash() {
    let mut change = stored();
    change.pass_hash = ActiveValue::NotSet;
    change.pass_hash_cipher = ActiveValue::Assigned(PassHashCipher::Bcrypt);
    let saved = change.clone().before_save(false, NOW, &quick()).unwrap();
    assert_eq!(saved.pass_hash, ActiveValue::Assigned(None));
    assert_eq!(saved.pass_last_changed_at, ActiveValue::Assigned(NOW));
    assert_eq!(saved.updated_at, ActiveValue::Assigned(NOW));
    let inserted = change.before_save(true, NOW, &quick()).unwrap();
    assert_eq!(inserted.pass_hash, ActiveValue::NotSet);
    assert_eq!(inserted.pass_last_changed_at, ActiveValue::Unchanged(THEN));
    let mut kept = stored();
    kept.pass_hash_cipher = ActiveValue::Assigned(PassHashCipher::Bcrypt);
    let saved = kept.before_save(false, NOW, &quick()).unwrap();
    assert_eq!(saved.pass_hash, ActiveValue::Assigned(None));
    assert_eq!(saved.pass_hash_cipher, ActiveValue::Assigned(PassHashCipher::Bcrypt));
    assert_eq!(saved.pass_last_changed_at, ActiveValue::Assigned(NOW));
}

#[test]
fn an_update_that_keeps_the_hash_keeps_it() {
    let mut change = stored();
    change.force_pass_change = ActiveValue::Assigned(true);
    let saved = change.before_save(false, NOW, &quick()).unwrap();
    assert_eq!(saved.pass_hash, ActiveValue::Unchanged(Some("$2b$04$old".to_string())));
    assert_eq!(saved.pass_last_changed_at, ActiveValue::Unchanged(THEN));
    assert_eq!(saved.force_pass_change, ActiveValue::Assigned(true));
    assert_eq!(saved.created_at, ActiveValue::Unchanged(THEN));
    assert_eq!(saved.updated_at, ActiveValue::Assigned(NOW));
}

#[test]
fn a_written_absent_password_clears_the_hash() {
    let mut change = stored();
    change.pass_hash = ActiveValue::Assigned(None);
    change.pass_hash_cipher = ActiveValue::NotSet;
    let saved = change.before_save(false, NOW, &quick()).unwrap();
    assert_eq!(saved.pass_hash, ActiveValue::Assigned(None));
    assert_eq!(saved.pass_last_changed_at, ActiveValue::Assigned(NOW));
}

#[test]
fn a_written_time_of_change_becomes_the_time_of_the_write() {
    let mut change = stored();
    change.pass_last_changed_at = ActiveValue::Assigned(Timestamp { secs: 5, nanos: 0 });
    let saved = change.before_save(false, NOW, &quick()).unwrap();
    assert_eq!(saved.pass_last_changed_at, ActiveValue::Assigned(NOW));
}

#[test]
fn a_written_reset_code_is_replaced_and_expires_in_a_day() {
    let mut change = stored();
    change.pass_reset_code = ActiveValue::Assigned(Some("1234".to_string()));
    let saved = change.before_save(false, NOW, &quick()).unwrap();
    let code = match &saved.pass_reset_code {
        ActiveValue::Assigned(Some(code)) => code.clone(),
        other => panic!("no code was written: {:?}", other),
    };
    let number: u32 = code.parse().unwrap();
    assert!(1 <= number && number < 99_999_999);
    assert_eq!(number.to_string(), code);
    assert_eq!(saved.pass_reset_str, ActiveValue::Unchanged(None));
    assert_eq!(
        saved.pass_reset_code_expires_at,
        ActiveValue::Assigned(Some(Timestamp { secs: 1_700_086_900, nanos: 250 }))
    );
    assert_eq!(saved.pass_hash, ActiveValue::Unchanged(Some("$2b$04$old".to_string())));
}

#[test]
fn a_written_reset_string_is_replaced_by_the_servers() {
    let mut change = stored();
    change.pass_reset_str = ActiveValue::Assigned(Some("mine".to_string()));
    change.pass_reset_code = ActiveValue::Assigned(Some("77".to_string()));
    let saved = change.before_save(false, NOW, &quick()).unwrap();
    let text = match &saved.pass_reset_str {
        ActiveValue::Assigned(Some(text)) => text.clone(),
        other => panic!("no string was written: {:?}", other),
    };
    assert_eq!(text.len(), 128);
    assert!(text.chars().all(|c| c.is_ascii_alphanumeric()));
    assert!(saved.pass_reset_code.has_some());
    assert_ne!(saved.pass_reset_code, ActiveValue::Assigned(Some("77".to_string())));
    assert_eq!(
        saved.pass_reset_code_expires_at,
        ActiveValue::Assigned(Some(Timestamp { secs: 1_700_086_900, nanos: 250 }))
    );
}

#[test]
fn withdrawing_the_reset_clears_its_expiry() {
    let mut change = stored();
    change.pass_reset_code = ActiveValue::Assigned(None);
    change.pass_reset_str = ActiveValue::Assigned(None);
    change.pass_reset_code_expires_at = ActiveValue::Unchanged(Some(THEN));
    let saved = change.before_save(false, NOW, &quick()).unwrap();
    assert_eq!(saved.pass_reset_code, ActiveValue::Assigned(None));
    assert_eq!(saved.pass_reset_str, ActiveValue::Assigned(None));
    assert_eq!(saved.pass_reset_code_expires_at, ActiveValue::Assigned(None));
}

#[test]
fn withdrawing_one_of_two_keeps_the_expiry() {
    let mut change = stored();
    change.pass_reset_code = ActiveValue::Assigned(None);
    change.pass_reset_str = ActiveValue::Unchanged(Some("still here".to_string()));
    change.pass_reset_code_expires_at = ActiveValue::Unchanged(Some(THEN));
    let saved = change.before_save(false, NOW, &quick()).unwrap();
    assert_eq!(saved.pass_reset_code, ActiveValue::Assigned(None));
    assert_eq!(saved.pass_reset_str, ActiveValue::Unchanged(Some("still here".to_string())));
    assert_eq!(saved.pass_reset_code_expires_at, ActiveValue::Unchanged(Some(THEN)));
}

#[test]
fn the_given_secrets_are_what_is_stored() {
    let mut change = stored();
    change.pass_hash = ActiveValue::Assigned(Some("Secret123".to_string()));
    change.pass_reset_code = ActiveValue::Assigned(Some("0".to_string()));
    change.pass_reset_str = ActiveValue::Assigned(Some("x".to_string()));
    let saved = change
        .before_save_with(
            false,
            NOW,
            &PolicyConfig::default(),
            Some("H".to_string()),
            "4711".to_string(),
            "abc".to_string(),
        )
        .unwrap();
    let mut expected = stored();
    expected.pass_hash = ActiveValue::Assigned(Some("H".to_string()));
    expected.pass_last_changed_at = ActiveValue::Assigned(NOW);
    expected.pass_reset_code = ActiveValue::Assigned(Some("4711".to_string()));
    expected.pass_reset_str = ActiveValue::Assigned(Some("abc".to_string()));
    expected.pass_reset_code_expires_at =
        ActiveValue::Assigned(Some(Timestamp { secs: 1_700_086_900, nanos: 250 }));
    expected.updated_at = ActiveValue::Assigned(NOW);
    assert_eq!(saved, expected);
}

#[test]
fn a_failed_cipher_refuses_the_password() {
    let mut change = stored();
    change.pass_hash = ActiveValue::Assigned(Some("Secret123".to_string()));
    let refused = change.clone().before_save_with(
        false,
        NOW,
        &PolicyConfig::default(),
        None,
        String::new(),
        String::new(),
    );
    assert_eq!(refused, Err(RejectionReason::InternalCryptoFailure));
    change.pass_hash = ActiveValue::NotSet;
    let saved = change.before_save_with(
        false,
        NOW,
        &PolicyConfig::default(),
        None,
        String::new(),
        String::new(),
    );
    assert!(saved.is_ok());
}

#[test]
fn reset_codes_as_generated() {
    let cfg = PolicyConfig::default();
    for _ in 0..20 {
        let (text, code) = gen_pass_reset_codes(&cfg);
        assert_eq!(text.len(), 128);
        assert!(text.chars().all(|c| c.is_ascii_alphanumeric()));
        assert!(1 <= code && code < 99_999_999);
    }
    let narrow = PolicyConfig { pass_reset_str_size: 3, pass_reset_code_limit: 2, ..cfg };
    let (text, code) = gen_pass_reset_codes(&narrow);
    assert_eq!(text.len(), 3);
    assert_eq!(code, 1);
}

#[test]
fn a_reset_is_savable_while_its_expiry_is_representable() {
    let mut change = stored();
    assert!(change.can_save(Timestamp { secs: MAX_SECS, nanos: 0 }, &PolicyConfig::default()));
    change.pass_reset_code = ActiveValue::Assigned(Some("1".to_string()));
    let cfg = PolicyConfig::default();
    assert!(change.can_save(NOW, &cfg));
    assert!(change.can_save(Timestamp { secs: MAX_SECS - 86_400, nanos: 0 }, &cfg));
    assert!(!change.can_save(Timestamp { secs: MAX_SECS - 86_399, nanos: 0 }, &cfg));
    assert!(!change.can_save(NOW, &PolicyConfig { pass_reset_code_limit: 1, ..cfg }));
    assert!(!change.can_save(NOW, &PolicyConfig { pass_reset_code_limit: 0, ..cfg }));
}

#[test]
fn a_new_credential_is_empty_but_for_its_identity_and_stamps() {
    let change = ActiveModel::new(NOW);
    assert!(change.id.is_set());
    assert_eq!(uuid::Uuid::from_u128(*change.id.as_ref()).get_version_num(), 4);
    assert_eq!(change.user_id, ActiveValue::NotSet);
    assert_eq!(change.pass_hash, ActiveValue::NotSet);
    assert_eq!(change.created_at, ActiveValue::Assigned(NOW));
    assert_eq!(change.updated_at, ActiveValue::Assigned(NOW));
    assert_ne!(ActiveModel::new(NOW).id, change.id);
}

#[test]
fn what_is_stored_for_each_answer_of_the_cipher() {
    let password = "Secret123".to_string();
    let hash = "$2b$04$EGdrhbKUv8Oc9vGiXX0HQOxSg445d458Muh7DAHskb6QbtCvdxcie".to_string();
    assert_eq!(stored_hash(&password, Ok(hash.clone())), Ok(Some(hash)));
    assert_eq!(stored_hash(&password, Ok("x".to_string())), Ok(Some("x".to_string())));
    assert_eq!(
        stored_hash(&password, Ok("Secret123".to_string())),
        Err(RejectionReason::InternalCryptoFailure)
    );
    assert_eq!(
        stored_hash(&String::new(), Ok(String::new())),
        Err(RejectionReason::InternalCryptoFailure)
    );
    assert_eq!(
        stored_hash(&password, Err(bcrypt::BcryptError::CostNotAllowed(32))),
        Err(RejectionReason::InternalCryptoFailure)
    );
    assert_eq!(
        stored_hash(&password, Err(bcrypt::BcryptError::InvalidSaltLen(3))),
        Err(RejectionReason::InternalCryptoFailure)
    );
}

#[test]
fn an_expiry_written_without_a_reset_is_not_stored() {
    let written = ActiveValue::Assigned(Some(Timestamp { secs: 4_000_000_000, nanos: 0 }));
    let mut change = stored();
    change.pass_reset_code = ActiveValue::Unchanged(Some("1234".to_string()));
    change.pass_reset_code_expires_at = written.clone();
    let saved = change.clone().before_save(false, NOW, &quick()).unwrap();
    assert_eq!(saved.pass_reset_code_expires_at, ActiveValue::NotSet);
    assert_eq!(saved.pass_reset_code, ActiveValue::Unchanged(Some("1234".to_string())));
    assert_eq!(saved.pass_reset_str, ActiveValue::Unchanged(None));
    let inserted = change.before_save(true, NOW, &quick()).unwrap();
    assert_eq!(inserted.pass_reset_code_expires_at, ActiveValue::NotSet);
    let mut cleared = stored();
    cleared.pass_reset_code_expires_at = ActiveValue::Assigned(None);
    assert_eq!(
        cleared.before_save(false, NOW, &quick()).unwrap().pass_reset_code_expires_at,
        ActiveValue::NotSet
    );
    let mut partial = stored();
    partial.pass_reset_code = ActiveValue::Assigned(None);
    partial.pass_reset_str = ActiveValue::Unchanged(Some("still here".to_string()));
    partial.pass_reset_code_expires_at = written.clone();
    assert_eq!(
        partial.before_save(false, NOW, &quick()).unwrap().pass_reset_code_expires_at,
        ActiveValue::NotSet
    );
}

#[test]
fn an_expiry_written_with_a_reset_is_the_servers() {
    let mut change = stored();
    change.pass_reset_str = ActiveValue::Assigned(Some("mine".to_string()));
    change.pass_reset_code_expires_at =
        ActiveValue::Assigned(Some(Timestamp { secs: 4_000_000_000, nanos: 0 }));
    let saved = change.before_save(false, NOW, &quick()).unwrap();
    assert_eq!(
        saved.pass_reset_code_expires_at,
        ActiveValue::Assigned(Some(Timestamp { secs: 1_700_086_900, nanos: 250 }))
    );
    let mut withdrawn = stored();
    withdrawn.pass_reset_code = ActiveValue::Assigned(None);
    withdrawn.pass_reset_code_expires_at =
        ActiveValue::Assigned(Some(Timestamp { secs: 4_000_000_000, nanos: 0 }));
    let saved = withdrawn.before_save(false, NOW, &quick()).unwrap();
    assert_eq!(saved.pass_reset_code_expires_at, ActiveValue::Assigned(None));
}

#[test]
fn an_expiry_that_is_not_written_stays() {
    let mut change = stored();
    change.pass_reset_code = ActiveValue::Unchanged(Some("1234".to_string()));
    change.pass_reset_code_expires_at = ActiveValue::Unchanged(Some(THEN));
    let saved = change.before_save(false, NOW, &quick()).unwrap();
    assert_eq!(saved.pass_reset_code_expires_at, ActiveValue::Unchanged(Some(THEN)));
    let mut absent = stored();
    absent.pass_reset_code_expires_at = ActiveValue::NotSet;
    assert_eq!(
        absent.before_save(false, NOW, &quick()).unwrap().pass_reset_code_expires_at,
        ActiveValue::NotSet
    );
}
