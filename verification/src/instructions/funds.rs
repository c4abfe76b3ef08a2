//! Moving funds out of a vault: tokens if the vault has a token account,
//! else lamports.

use vstd::prelude::*;
use crate::errors::HydentityError;

verus! {

/// What a vault holds when funds are to leave it, and what stands on the
/// receiving side.
#[derive(Clone, Copy, Debug, PartialEq, Eq)]
pub struct VaultFunds {
    /// The balance of the vault's token account, if the transfer is one of
    /// tokens.
    pub token_balance: Option<u64>,
    /// Whether the receiving side has a token account.
    pub receiver_has_token_account: bool,
    /// The lamports of the account that pays.
    pub lamports: u64,
    /// The lamports that the paying account must keep to stay rent-exempt.
    pub rent_exempt_minimum: u64,
    /// The lamports of the account that receives.
    pub receiver_lamports: u64,
}

/// The transfer to make.
#[derive(Clone, Copy, Debug, PartialEq, Eq)]
pub enum FundsTransfer {
    /// A transfer of tokens, signed by the vault's authority.
    Tokens { amount: u64 },
    /// A transfer of lamports, with the balances of both sides after it.
    Lamports { amount: u64, payer_lamports: u64, receiver_lamports: u64 },
}

/// The lamports of the paying account that are free to leave it: what it
/// holds above the rent-exempt minimum.
pub open spec fn free_lamports(funds: VaultFunds) -> int {
    if funds.lamports >= funds.rent_exempt_minimum {
        funds.lamports - funds.rent_exempt_minimum
    } else {
        0
    }
}

/// The transfer of `amount` out of the vault, or why it cannot be made.
///
/// With a token account the vault pays in tokens: it must hold the amount,
/// and the receiver must have a token account. Without one it pays in
/// lamports: the amount must be free to leave, and the receiver's balance
/// must stay within range.
pub open spec fn funds_transfer(funds: VaultFunds, amount: u64) -> Result<
    FundsTransfer,
    HydentityError,
> {
    match funds.token_balance {
        Some(balance) => if balance < amount {
            Err(HydentityError::InsufficientBalance)
        } else if !funds.receiver_has_token_account {
            Err(HydentityError::InvalidMint)
        } else {
            Ok(FundsTransfer::Tokens { amount })
        },
        None => if free_lamports(funds) < amount {
            Err(HydentityError::InsufficientBalance)
        } else if funds.receiver_lamports + amount > u64::MAX {
            Err(HydentityError::ArithmeticOverflow)
        } else {
            Ok(
                FundsTransfer::Lamports {
                    amount,
                    payer_lamports: (funds.lamports - amount) as u64,
                    receiver_lamports: (funds.receiver_lamports + amount) as u64,
                },
            )
        },
    }
}

/// Decides the transfer of `amount` out of the vault.
pub fn plan_transfer(funds: &VaultFunds, amount: u64) -> (result: Result<
    FundsTransfer,
    HydentityError,
>)
    ensures
        result == funds_transfer(*funds, amount),
{
    if let Some(balance) = funds.token_balance {
        if balance < amount {
            return Err(HydentityError::InsufficientBalance);
        }
        if !funds.receiver_has_token_account {
            return Err(HydentityError::InvalidMint);
        }
        Ok(FundsTransfer::Tokens { amount })
    } else {
        let available = funds.lamports.saturating_sub(funds.rent_exempt_minimum);
        if available < amount {
            return Err(HydentityError::InsufficientBalance);
        }
        let receiver_lamports = match funds.receiver_lamports.checked_add(amount) {
            Some(total) => total,
            None => {
                return Err(HydentityError::ArithmeticOverflow);
            },
        };
        Ok(
            FundsTransfer::Lamports {
                amount,
                payer_lamports: funds.lamports - amount,
                receiver_lamports,
            },
        )
    }
}

} // verus!
