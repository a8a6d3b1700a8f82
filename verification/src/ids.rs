//! Random identifiers for intents and tasks.

use vstd::prelude::*;

verus! {

/// `uuid::Uuid`, carried through the library as an opaque value.
#[verifier::external_type_specification]
#[verifier::external_body]
pub struct ExUuid(uuid::Uuid);

/// `Clone` of `uuid::Uuid`, which is `Copy`: the clone is the same value.
pub assume_specification[ <uuid::Uuid as Clone>::clone ](u: &uuid::Uuid) -> (r: uuid::Uuid)
    ensures
        r == *u,
;

/// Calls `uuid::Uuid::new_v4`, which draws a random version-4 identifier
/// from the operating system's random source. The value depends on chance,
/// so the contract states nothing of it; the call panics only when the
/// operating system cannot supply random bytes.
#[verifier::external_body]
pub(crate) fn new_uuid() -> uuid::Uuid {
    uuid::Uuid::new_v4()
}

} // verus!
