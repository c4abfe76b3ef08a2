//! The records that the program keeps for a vault.

pub mod delegate_session;
pub mod encrypted_config;
pub mod name_vault;
pub mod pending_withdrawal;
pub mod privacy_policy;
pub mod vault_authority;
