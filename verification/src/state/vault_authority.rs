//! The authority that signs token transfers for a vault.

use vstd::prelude::*;
use crate::constants::{Pubkey, VAULT_AUTH_SEED};
use crate::types::zero_bytes;

verus! {

/// The authority over the token accounts that a vault holds.
#[derive(Clone, Copy, Debug, PartialEq, Eq)]
pub struct VaultAuthority {
    /// The vault that the authority acts for.
    pub vault: Pubkey,
    /// The name account of that vault.
    pub sns_name: Pubkey,
    pub bump: u8,
    pub _reserved: [u8; 32],
}

impl VaultAuthority {
    /// Size of the stored record, its eight-byte tag included.
    pub const LEN: usize = 8 + 32 + 32 + 1 + 32;

    /// Sets the authority up for `vault` and `sns_name`.
    pub fn initialize(&mut self, vault: Pubkey, sns_name: Pubkey, bump: u8)
        ensures
            final(self).vault == vault,
            final(self).sns_name == sns_name,
            final(self).bump == bump,
            final(self)._reserved@ == zero_bytes(32),
    {
        self.vault = vault;
        self.sns_name = sns_name;
        self.bump = bump;
        self._reserved = [0u8; 32];
        proof {
            assert(self._reserved@ =~= zero_bytes(32));
        }
    }

    /// The seeds with which the authority signs: the seed prefix, the bytes
    /// of the name account, and the bump.
    pub fn signer_seeds<'a>(&'a self, sns_name_bytes: &'a [u8]) -> (seeds: [&'a [u8]; 3])
        ensures
            seeds@[0]@ == VAULT_AUTH_SEED@,
            seeds@[1]@ == sns_name_bytes@,
            seeds@[2]@ == seq![self.bump],
    {
        let prefix: &[u8] = &VAULT_AUTH_SEED;
        [prefix, sns_name_bytes, byte_as_slice(&self.bump)]
    }
}

/// Views one byte as a slice of length one.
///
/// Trusted: the body calls `std::slice::from_ref`, which turns a reference
/// into a slice of length one over the value it refers to, without copying.
/// The contract says that the slice holds that one byte.
#[verifier::external_body]
fn byte_as_slice(byte: &u8) -> (slice: &[u8])
    ensures
        slice@ == seq![*byte],
{
    std::slice::from_ref(byte)
}

impl Default for VaultAuthority {
    fn default() -> (authority: VaultAuthority)
        ensures
            authority.vault@ == zero_bytes(32),
            authority.sns_name@ == zero_bytes(32),
            authority.bump == 0,
            authority._reserved@ == zero_bytes(32),
    {
        let authority = VaultAuthority {
            vault: [0u8; 32],
            sns_name: [0u8; 32],
            bump: 0,
            _reserved: [0u8; 32],
        };
        proof {
            assert(authority.vault@ =~= zero_bytes(32));
            assert(authority.sns_name@ =~= zero_bytes(32));
            assert(authority._reserved@ =~= zero_bytes(32));
        }
        authority
    }
}

} // verus!
