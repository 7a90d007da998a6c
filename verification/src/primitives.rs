//! The host chain's value types, as the ledger sees them.
//!
//! Identities are `Address` values and reward amounts are `U256` values. The
//! ledger stores and returns them unchanged and compares identities; it does
//! no arithmetic on amounts and never inspects the bytes of an identity.

use stylus_sdk::alloy_primitives::Address;
use vstd::prelude::*;

verus! {

/// `alloy_primitives::Address`, a 20-byte account identifier. Its contents are
/// not visible to the verifier: two values are either the same or not.
#[verifier::external_type_specification]
#[verifier::external_body]
pub struct ExAddress(stylus_sdk::alloy_primitives::Address);

/// `ruint::Uint`, the fixed-width unsigned integer of which `U256` is the
/// 256-bit instance. Its contents are not visible to the verifier.
#[verifier::external_type_specification]
#[verifier::external_body]
pub struct ExUint<const BITS: usize, const LIMBS: usize>(
    stylus_sdk::alloy_primitives::Uint<BITS, LIMBS>,
);

/// Calls `Address::eq`, the derived comparison of the twenty bytes that make
/// up an address. Unproved claim: the call returns `true` exactly when both
/// arguments are the same address.
#[verifier::external_body]
pub(crate) fn same_address(a: &Address, b: &Address) -> (same: bool)
    ensures
        same == (*a == *b),
{
    a.eq(b)
}

} // verus!
