use entities::active_value::ActiveValue;
use entities::auth_api_key::{generante_api_key, ActiveModel as ApiKey};
use entities::config::PolicyConfig;
use entities::pki_key::{ActiveModel as PkiKey, KeyAlgos};
use entities::rejection::{EntityKind, RejectionReason};
use entities::timestamp::Timestamp;

const THEN: Timestamp = Timestamp { secs: 1_700_000_000, nanos: 0 };
const NOW: Timestamp = Timestamp { secs: 1_700_000_500, nanos: 250 };

fn stored_key() -> ApiKey {
    ApiKey {
        id: ActiveValue::Unchanged(1),
        user_id: ActiveValue::Unchanged(Some(2)),
        organisation_id: ActiveValue::Unchanged(None),
        api_access_key: ActiveValue::Unchanged("access".to_string()),
        api_secret_key: ActiveValue::Unchanged("secret".to_string()),
        key_issued_at: ActiveValue::Unchanged(THEN),
        expires_on: ActiveValue::Unchanged(None),
        ip_address_last_used: ActiveValue::Unchanged(None),
        key_last_used_at: ActiveValue::Unchanged(None),
        created_at: ActiveValue::Unchanged(THEN),
        updated_at: ActiveValue::Unchanged(THEN),
    }
}

#[test]
fn an_api_key_without_an_owner_is_refused_on_insert_and_update() {
    let refusal = RejectionReason::MissingOwner { entity_kind: EntityKind::ApiKeyCredential };
    let absent = [
        (ActiveValue::NotSet, ActiveValue::NotSet),
        (ActiveValue::Assigned(None), ActiveValue::Assigned(None)),
        (ActiveValue::Unchanged(None), ActiveValue::Unchanged(None)),
        (ActiveValue::Assigned(None), ActiveValue::NotSet),
        (ActiveValue::NotSet, ActiveValue::Unchanged(None)),
    ];
    for (user, organisation) in absent {
        let mut change = stored_key();
        change.user_id = user;
        change.organisation_id = organisation;
        assert_eq!(change.clone().before_save(true, NOW), Err(refusal));
        assert_eq!(change.before_save(false, NOW), Err(refusal));
    }
}

#[test]
fn an_api_key_with_either_owner_is_approved() {
    let owners = [
        (ActiveValue::Assigned(Some(2)), ActiveValue::NotSet),
        (ActiveValue::NotSet, ActiveValue::Assigned(Some(3))),
        (ActiveValue::Unchanged(Some(2)), ActiveValue::Assigned(None)),
        (ActiveValue::Assigned(None), ActiveValue::Unchanged(Some(3))),
        (ActiveValue::Assigned(Some(2)), ActiveValue::Assigned(Some(3))),
    ];
    for (user, organisation) in owners {
        let mut change = stored_key();
        change.user_id = user.clone();
        change.organisation_id = organisation.clone();
        let saved = change.clone().before_save(false, NOW).unwrap();
        assert_eq!(saved.user_id, user);
        assert_eq!(saved.organisation_id, organisation);
        assert_eq!(saved.updated_at, ActiveValue::Assigned(NOW));
        assert_eq!(saved.created_at, ActiveValue::Unchanged(THEN));
        let inserted = change.before_save(true, NOW).unwrap();
        assert_eq!(inserted.created_at, ActiveValue::Assigned(NOW));
        assert_eq!(inserted.updated_at, ActiveValue::Assigned(NOW));
    }
}

#[test]
fn an_update_that_records_a_use_records_its_time() {
    let mut change = stored_key();
    change.ip_address_last_used = ActiveValue::Assigned(Some("192.0.2.1".to_string()));
    let saved = change.clone().before_save(false, NOW).unwrap();
    assert_eq!(saved.key_last_used_at, ActiveValue::Assigned(Some(NOW)));
    assert_eq!(saved.ip_address_last_used, ActiveValue::Assigned(Some("192.0.2.1".to_string())));
    let inserted = change.before_save(true, NOW).unwrap();
    assert_eq!(inserted.key_last_used_at, ActiveValue::Unchanged(None));
    let untouched = stored_key().before_save(false, NOW).unwrap();
    assert_eq!(untouched.key_last_used_at, ActiveValue::Unchanged(None));
    assert_eq!(untouched.api_access_key, ActiveValue::Unchanged("access".to_string()));
}

#[test]
fn a_new_api_key_has_fresh_keys() {
    let cfg = PolicyConfig::default();
    let change = ApiKey::new(NOW, &cfg);
    let access = change.api_access_key.as_ref().clone();
    let secret = change.api_secret_key.as_ref().clone();
    assert_eq!(access.len(), 64);
    assert_eq!(secret.len(), 64);
    assert!(access.chars().all(|c| c.is_ascii_alphanumeric()));
    assert!(secret.chars().all(|c| c.is_ascii_alphanumeric()));
    assert_ne!(access, secret);
    assert_eq!(change.key_issued_at, ActiveValue::Assigned(NOW));
    assert_eq!(change.created_at, ActiveValue::Assigned(NOW));
    assert_eq!(change.updated_at, ActiveValue::Assigned(NOW));
    assert_eq!(change.user_id, ActiveValue::NotSet);
    assert_eq!(uuid::Uuid::from_u128(*change.id.as_ref()).get_version_num(), 4);
    let refusal = RejectionReason::MissingOwner { entity_kind: EntityKind::ApiKeyCredential };
    assert_eq!(change.before_save(true, NOW), Err(refusal));
}

#[test]
fn a_key_pair_as_generated() {
    let cfg = PolicyConfig { api_access_key_size: 20, api_secret_key_size: 40, ..PolicyConfig::default() };
    let (access, secret) = generante_api_key(&cfg);
    assert_eq!(access.len(), 20);
    assert_eq!(secret.len(), 40);
    assert!(access.chars().all(|c| c.is_ascii_alphanumeric()));
    assert!(secret.chars().all(|c| c.is_ascii_alphanumeric()));
}

#[test]
fn a_pki_key_needs_a_user_an_organisation_or_a_group() {
    let refusal = RejectionReason::MissingOwner { entity_kind: EntityKind::PkiKey };
    let change = PkiKey::new(THEN);
    assert_eq!(change.clone().before_save(true, NOW), Err(refusal));
    assert_eq!(change.clone().before_save(false, NOW), Err(refusal));
    let mut nobody = change.clone();
    nobody.user_id = ActiveValue::Assigned(None);
    nobody.organisation_id = ActiveValue::Unchanged(None);
    nobody.group_id = ActiveValue::Assigned(None);
    assert_eq!(nobody.before_save(false, NOW), Err(refusal));
    for owner in 0..3 {
        let mut owned = change.clone();
        owned.algo = ActiveValue::Assigned(KeyAlgos::RSA);
        owned.public_key = ActiveValue::Assigned(Some("pem".to_string()));
        match owner {
            0 => owned.user_id = ActiveValue::Assigned(Some(5)),
            1 => owned.organisation_id = ActiveValue::Assigned(Some(5)),
            _ => owned.group_id = ActiveValue::Unchanged(Some(5)),
        }
        let saved = owned.clone().before_save(false, NOW).unwrap();
        let mut expected = owned;
        expected.updated_at = ActiveValue::Assigned(NOW);
        assert_eq!(saved, expected);
    }
}
