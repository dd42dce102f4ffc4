//! The verified flag of a contact and the time of its verification.

use vstd::prelude::*;
use crate::active_value::ActiveValue;
use crate::timestamp::Timestamp;

verus! {

/// The time of verification after a write at `now`: a write of the verified
/// flag sets it to `now` for true and clears it for false; without one it
/// stays.
pub open spec fn mirrored(
    is_verified: ActiveValue<bool>,
    verified_at: ActiveValue<Option<Timestamp>>,
    now: Timestamp,
) -> ActiveValue<Option<Timestamp>> {
    match is_verified {
        ActiveValue::Assigned(true) => ActiveValue::Assigned(Some(now)),
        ActiveValue::Assigned(false) => ActiveValue::Assigned(None),
        _ => verified_at,
    }
}

/// The time of verification after a write at `now`.
pub fn mirror(
    is_verified: &ActiveValue<bool>,
    verified_at: ActiveValue<Option<Timestamp>>,
    now: Timestamp,
) -> (r: ActiveValue<Option<Timestamp>>)
    ensures
        r == mirrored(*is_verified, verified_at, now),
{
    match is_verified {
        ActiveValue::Assigned(true) => ActiveValue::Assigned(Some(now)),
        ActiveValue::Assigned(false) => ActiveValue::Assigned(None),
        _ => verified_at,
    }
}

/// After a write of the verified flag the time of verification is present
/// exactly when the flag is true.
pub proof fn lemma_time_agrees_with_flag(
    flag: bool,
    verified_at: ActiveValue<Option<Timestamp>>,
    now: Timestamp,
)
    ensures
        mirrored(ActiveValue::Assigned(flag), verified_at, now).writes_some() == flag,
        mirrored(ActiveValue::Assigned(flag), verified_at, now).writes_none() == !flag,
{
}

/// Marking a contact verified and then unverified, and both once more:
/// after each marking as verified the time of verification is the time of
/// that write, and after each marking as unverified it is absent, whatever it
/// was before.
pub proof fn lemma_verification_round_trip(
    verified_at: ActiveValue<Option<Timestamp>>,
    first: Timestamp,
    second: Timestamp,
    third: Timestamp,
    fourth: Timestamp,
)
    ensures
        ({
            let after_first = mirrored(ActiveValue::Assigned(true), verified_at, first);
            let after_second = mirrored(ActiveValue::Assigned(false), after_first, second);
            let after_third = mirrored(ActiveValue::Assigned(true), after_second, third);
            let after_fourth = mirrored(ActiveValue::Assigned(false), after_third, fourth);
            &&& after_first == ActiveValue::Assigned(Some(first))
            &&& after_second == ActiveValue::Assigned(None::<Timestamp>)
            &&& after_third == ActiveValue::Assigned(Some(third))
            &&& after_fourth == ActiveValue::Assigned(None::<Timestamp>)
        }),
{
}

} // verus!
