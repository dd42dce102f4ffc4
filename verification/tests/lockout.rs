use entities::active_value::ActiveValue;
use entities::config::PolicyConfig;
use entities::timestamp::Timestamp;
use entities::user::{ActiveModel, LockedState, LockoutAction};

const THEN: Timestamp = Timestamp { secs: 1_700_000_000, nanos: 0 };
const NOW: Timestamp = Timestamp { secs: 1_700_000_500, nanos: 250 };

fn stored(state: LockedState, attempts: ActiveValue<u16>) -> ActiveModel {
    ActiveModel {
        id: ActiveValue::Unchanged(1),
        invalid_login_attempts: attempts,
        locked_state: ActiveValue::Unchanged(state),
        locked_state_updated_at: ActiveValue::Unchanged(THEN),
        locked_state_expires_at: ActiveValue::Unchanged(None),
        last_login_at: ActiveValue::Unchanged(None),
        pki_key_id: ActiveValue::Unchanged(7),
        created_at: ActiveValue::Unchanged(THEN),
        updated_at: ActiveValue::Unchanged(THEN),
    }
}

#[test]
fn eleven_failures_lock_an_unlocked_account_for_an_hour() {
    let change = stored(LockedState::Unlocked, ActiveValue::Assigned(11));
    let saved = change.before_save(false, NOW, &PolicyConfig::default()).unwrap();
    assert_eq!(saved.locked_state, ActiveValue::Assigned(LockedState::TemporarilyLocked));
    assert_eq!(
        saved.locked_state_expires_at,
        ActiveValue::Assigned(Some(Timestamp { secs: 1_700_004_100, nanos: 250 }))
    );
    assert_eq!(saved.locked_state_updated_at, ActiveValue::Assigned(NOW));
    assert_eq!(saved.updated_at, ActiveValue::Assigned(NOW));
    assert_eq!(saved.created_at, ActiveValue::Unchanged(THEN));
    assert_eq!(saved.invalid_login_attempts, ActiveValue::Assigned(11));
}

#[test]
fn ten_failures_do_not_lock() {
    let change = stored(LockedState::Unlocked, ActiveValue::Assigned(10));
    let saved = change.before_save(false, NOW, &PolicyConfig::default()).unwrap();
    assert_eq!(saved.locked_state, ActiveValue::Unchanged(LockedState::Unlocked));
    assert_eq!(saved.locked_state_expires_at, ActiveValue::Unchanged(None));
    assert_eq!(saved.locked_state_updated_at, ActiveValue::Unchanged(THEN));
    assert_eq!(saved.invalid_login_attempts, ActiveValue::Assigned(10));
    assert_eq!(saved.updated_at, ActiveValue::Assigned(NOW));
}

#[test]
fn zero_on_an_unlocked_account_changes_no_lock_field() {
    let change = stored(LockedState::Unlocked, ActiveValue::Assigned(0));
    let saved = change.before_save(false, NOW, &PolicyConfig::default()).unwrap();
    assert_eq!(saved.locked_state, ActiveValue::Unchanged(LockedState::Unlocked));
    assert_eq!(saved.locked_state_expires_at, ActiveValue::Unchanged(None));
    assert_eq!(saved.locked_state_updated_at, ActiveValue::Unchanged(THEN));
}

#[test]
fn zero_unlocks_a_temporarily_locked_account() {
    let mut change = stored(LockedState::TemporarilyLocked, ActiveValue::Assigned(0));
    change.locked_state_expires_at =
        ActiveValue::Unchanged(Some(Timestamp { secs: 1_700_003_600, nanos: 0 }));
    let saved = change.before_save(false, NOW, &PolicyConfig::default()).unwrap();
    assert_eq!(saved.locked_state, ActiveValue::Assigned(LockedState::Unlocked));
    assert_eq!(saved.locked_state_expires_at, ActiveValue::Assigned(None));
    assert_eq!(saved.locked_state_updated_at, ActiveValue::Assigned(NOW));
}

#[test]
fn a_temporarily_locked_account_stays_locked_until_reset() {
    for attempts in [1u16, 5, 10, 11, 500, u16::MAX] {
        let change = stored(LockedState::TemporarilyLocked, ActiveValue::Assigned(attempts));
        let saved = change.before_save(false, NOW, &PolicyConfig::default()).unwrap();
        assert_eq!(saved.locked_state, ActiveValue::Unchanged(LockedState::TemporarilyLocked));
        assert_eq!(saved.locked_state_updated_at, ActiveValue::Unchanged(THEN));
    }
}

#[test]
fn a_permanent_lock_never_moves() {
    for attempts in [0u16, 1, 10, 11, u16::MAX] {
        let change = stored(LockedState::PermanentlyLocked, ActiveValue::Assigned(attempts));
        let saved = change.before_save(false, NOW, &PolicyConfig::default()).unwrap();
        assert_eq!(saved.locked_state, ActiveValue::Unchanged(LockedState::PermanentlyLocked));
        assert_eq!(saved.locked_state_expires_at, ActiveValue::Unchanged(None));
        assert_eq!(saved.locked_state_updated_at, ActiveValue::Unchanged(THEN));
    }
}

#[test]
fn an_unwritten_counter_moves_nothing() {
    let change = stored(LockedState::Unlocked, ActiveValue::Unchanged(40));
    let saved = change.before_save(false, NOW, &PolicyConfig::default()).unwrap();
    assert_eq!(saved.locked_state, ActiveValue::Unchanged(LockedState::Unlocked));
    assert_eq!(saved.updated_at, ActiveValue::Assigned(NOW));
}

#[test]
fn an_insert_is_stamped_and_not_locked() {
    let mut change = stored(LockedState::Unlocked, ActiveValue::Assigned(11));
    change.created_at = ActiveValue::NotSet;
    let saved = change.before_save(true, NOW, &PolicyConfig::default()).unwrap();
    assert_eq!(saved.locked_state, ActiveValue::Unchanged(LockedState::Unlocked));
    assert_eq!(saved.created_at, ActiveValue::Assigned(NOW));
    assert_eq!(saved.updated_at, ActiveValue::Assigned(NOW));
}

#[test]
fn an_unknown_lock_state_is_left_alone() {
    let mut change = stored(LockedState::Unlocked, ActiveValue::Assigned(11));
    change.locked_state = ActiveValue::NotSet;
    let saved = change.before_save(false, NOW, &PolicyConfig::default()).unwrap();
    assert_eq!(saved.locked_state, ActiveValue::NotSet);
    assert_eq!(saved.locked_state_expires_at, ActiveValue::Unchanged(None));
}

#[test]
fn the_threshold_and_the_duration_come_from_the_configuration() {
    let cfg = PolicyConfig { max_login_attempts: 3, locked_duration_mins: 5, ..PolicyConfig::default() };
    let change = stored(LockedState::Unlocked, ActiveValue::Assigned(4));
    assert!(change.can_save(false, NOW, &cfg));
    let saved = change.before_save(false, NOW, &cfg).unwrap();
    assert_eq!(saved.locked_state, ActiveValue::Assigned(LockedState::TemporarilyLocked));
    assert_eq!(
        saved.locked_state_expires_at,
        ActiveValue::Assigned(Some(Timestamp { secs: 1_700_000_800, nanos: 250 }))
    );
    let change = stored(LockedState::Unlocked, ActiveValue::Assigned(3));
    let saved = change.before_save(false, NOW, &cfg).unwrap();
    assert_eq!(saved.locked_state, ActiveValue::Unchanged(LockedState::Unlocked));
}

#[test]
fn the_state_machine_by_itself() {
    assert_eq!(LockedState::Unlocked.counter_written(11, 10), LockoutAction::Lock);
    assert_eq!(LockedState::Unlocked.counter_written(10, 10), LockoutAction::Keep);
    assert_eq!(LockedState::Unlocked.counter_written(0, 10), LockoutAction::Keep);
    assert_eq!(LockedState::TemporarilyLocked.counter_written(0, 10), LockoutAction::Unlock);
    assert_eq!(LockedState::TemporarilyLocked.counter_written(11, 10), LockoutAction::Keep);
    assert_eq!(LockedState::PermanentlyLocked.counter_written(0, 10), LockoutAction::Keep);
    assert_eq!(LockedState::PermanentlyLocked.counter_written(11, 10), LockoutAction::Keep);
    assert_eq!(LockedState::Unlocked.counter_written(1, 0), LockoutAction::Lock);
}

#[test]
fn a_lock_at_the_end_of_time_is_not_savable() {
    let late = Timestamp { secs: entities::timestamp::MAX_SECS - 3599, nanos: 0 };
    let change = stored(LockedState::Unlocked, ActiveValue::Assigned(11));
    assert!(!change.can_save(false, late, &PolicyConfig::default()));
    let just = Timestamp { secs: entities::timestamp::MAX_SECS - 3600, nanos: 999_999_999 };
    assert!(change.can_save(false, just, &PolicyConfig::default()));
    let saved = change.before_save(false, just, &PolicyConfig::default()).unwrap();
    assert_eq!(
        saved.locked_state_expires_at,
        ActiveValue::Assigned(Some(Timestamp {
            secs: entities::timestamp::MAX_SECS,
            nanos: 999_999_999
        }))
    );
}

#[test]
fn a_new_account_has_no_failed_login() {
    let account = ActiveModel::new(NOW);
    assert_eq!(account.invalid_login_attempts, ActiveValue::Assigned(0));
    assert_eq!(account.last_login_at, ActiveValue::Assigned(None));
    assert_eq!(account.created_at, ActiveValue::Assigned(NOW));
    assert_eq!(account.updated_at, ActiveValue::Assigned(NOW));
    assert_eq!(account.locked_state, ActiveValue::NotSet);
    let id = *account.id.as_ref();
    assert_eq!(id & 0xf000_c000_0000_0000_0000, 0x4000_8000_0000_0000_0000);
    assert_eq!(uuid::Uuid::from_u128(id).get_version_num(), 4);
}
