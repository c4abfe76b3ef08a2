//! The owner's direct withdrawal, which bypasses privacy.
//!
//! It is the fallback for recovering funds. Only the owner of the vault can
//! ask for it; the program checks that before it comes here.

use vstd::prelude::*;
use crate::errors::HydentityError;
use crate::instructions::funds::{funds_transfer, plan_transfer, FundsTransfer, VaultFunds};

verus! {

/// Decides the direct withdrawal of `amount` to the owner's destination.
pub fn handler(funds: &VaultFunds, amount: u64) -> (result: Result<FundsTransfer, HydentityError>)
    ensures
        result == funds_transfer(*funds, amount),
{
    plan_transfer(funds, amount)
}

} // verus!
