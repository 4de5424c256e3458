//! Values of the contract host that the initialization carries through
//! without looking inside them.

use vstd::prelude::*;

verus! {

/// A Soroban address (account or contract), carried as an opaque value.
#[verifier::external_type_specification]
#[verifier::external_body]
pub struct ExAddress(soroban_sdk::Address);

/// A Soroban host string, carried as an opaque value.
#[verifier::external_type_specification]
#[verifier::external_body]
pub struct ExString(soroban_sdk::String);

/// `Clone` of `soroban_sdk::Address`, which is derived: it clones the
/// environment handle and copies the host object handle. Claimed: the copy is
/// the same address value.
pub assume_specification[ <soroban_sdk::Address as std::clone::Clone>::clone ](
    a: &soroban_sdk::Address,
) -> (r: soroban_sdk::Address)
    ensures
        r == *a,
;

} // verus!
