use vstd::prelude::*;

verus! {

/// Relies on `uuid::Uuid::new_v4` (through `Uuid::as_u128`) to draw a fresh
/// random 128-bit identifier. The value is random, so nothing is assumed of
/// it; every caller handles every value it may take.
#[verifier::external_body]
pub(crate) fn fresh_id() -> u128 {
    uuid::Uuid::new_v4().as_u128()
}

} // verus!
