use vstd::prelude::*;

use crate::key::Key;
use crate::pda::address_view;

verus! {

/// Why an instruction is rejected before or after its handler runs. These are
/// the account checks of the framework the program is written against; the
/// program adds no errors of its own.
#[derive(Clone, Copy, Debug, PartialEq, Eq, Structural)]
pub enum ErrorCode {
    /// No program address can be derived from an account's seeds.
    InvalidSeeds,
    /// An account is not at the address its seeds derive.
    ConstraintSeeds,
    /// An account is not at the one address it must have.
    ConstraintAddress,
    /// A record does not fit in the space reserved for its account.
    AccountDidNotSerialize,
}

/// Outcome of checking that `actual` is the derived address `derived`: its
/// bump seed when it is.
pub open spec fn seeds_check(derived: Option<(Seq<u8>, u8)>, actual: Seq<u8>) -> Result<u8, ErrorCode> {
    match derived {
        None => Err(ErrorCode::InvalidSeeds),
        Some((address, bump)) => if address == actual {
            Ok(bump)
        } else {
            Err(ErrorCode::ConstraintSeeds)
        },
    }
}

/// Outcome of checking that `actual` is the fixed address `expected`.
pub open spec fn address_check(expected: Seq<u8>, actual: Seq<u8>) -> Result<(), ErrorCode> {
    if expected == actual {
        Ok(())
    } else {
        Err(ErrorCode::ConstraintAddress)
    }
}

/// Checks that the account at `actual` sits at the derived address `derived`,
/// and gives the bump seed it was derived with.
pub fn check_seeds(derived: Option<(Key, u8)>, actual: &Key) -> (r: Result<u8, ErrorCode>)
    ensures
        r == seeds_check(address_view(derived), actual.bytes@),
{
    match derived {
        None => Err(ErrorCode::InvalidSeeds),
        Some((address, bump)) => if address.same(actual) {
            Ok(bump)
        } else {
            Err(ErrorCode::ConstraintSeeds)
        },
    }
}

/// Checks that the account at `actual` is the one at `expected`.
pub fn check_address(expected: &Key, actual: &Key) -> (r: Result<(), ErrorCode>)
    ensures
        r == address_check(expected.bytes@, actual.bytes@),
{
    if expected.same(actual) {
        Ok(())
    } else {
        Err(ErrorCode::ConstraintAddress)
    }
}

} // verus!
