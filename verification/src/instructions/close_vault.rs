//! Closing a vault.

use vstd::prelude::*;
use crate::constants::Pubkey;
use crate::events::VaultClosed;

verus! {

/// Closes the vault for its owner: says what to announce. The owner clears
/// the funds beforehand; nothing is checked here.
pub fn handler(vault_key: Pubkey, owner: Pubkey, now: i64) -> (event: VaultClosed)
    ensures
        event == (VaultClosed { vault: vault_key, owner, timestamp: now }),
{
    VaultClosed { vault: vault_key, owner, timestamp: now }
}

} // verus!
