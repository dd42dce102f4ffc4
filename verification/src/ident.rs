//! Identifiers of records.

use vstd::prelude::*;

verus! {

/// `id` carries the version and variant marks of a random UUID: version 4 in
/// bits 76 to 79 and the variant `10` in bits 62 and 63.
pub open spec fn is_random_id(id: u128) -> bool {
    id & 0xf000_c000_0000_0000_0000u128 == 0x4000_8000_0000_0000_0000u128
}

/// `uuid::Uuid::new_v4`, read as a number by `as_u128`: every outcome carries
/// the marks of a random UUID.
#[verifier::external_body]
pub(crate) fn new_v4() -> (id: u128)
    ensures
        is_random_id(id),
{
    uuid::Uuid::new_v4().as_u128()
}

} // verus!
