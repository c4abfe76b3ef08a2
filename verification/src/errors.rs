//! The reasons for which an operation on a vault is refused.

use vstd::prelude::*;

verus! {

/// Why an operation was refused.
#[derive(Clone, Copy, Debug, PartialEq, Eq, Structural)]
pub enum HydentityError {
    /// The caller is not the vault owner.
    Unauthorized,
    /// The caller is not a valid delegate.
    UnauthorizedDelegate,
    /// The delegate session has expired.
    DelegateExpired,
    /// The delegate lacks the permission that the operation needs.
    InsufficientPermissions,
    /// The name account is not a valid name-service account.
    InvalidSnsName,
    /// The name account is not owned by who claims to own it.
    SnsOwnershipVerificationFailed,
    /// The privacy policy is disabled.
    PolicyDisabled,
    /// The policy configuration is invalid.
    InvalidPolicyConfig,
    /// More destinations are given than fit.
    TooManyDestinations,
    /// The lower bound of the splits is above the upper bound.
    InvalidSplitRange,
    /// The lower bound of the delays is above the upper bound.
    InvalidDelayRange,
    /// The vault holds less than the operation needs.
    InsufficientBalance,
    /// The amount is below the dust threshold.
    AmountBelowDust,
    /// The deposit into the mixer failed.
    UmbraDepositFailed,
    /// The mint address is invalid.
    InvalidMint,
    /// The vault is already initialized.
    VaultAlreadyInitialized,
    /// A counter or a total would leave the range of its type.
    ArithmeticOverflow,
    /// The delegate already exists.
    DelegateAlreadyExists,
    /// The delegate was not found.
    DelegateNotFound,
    /// The domain is not transferred to the vault.
    DomainNotTransferred,
    /// The domain is already transferred to the vault.
    DomainAlreadyTransferred,
    /// The transfer instruction of the name service failed.
    SnsTransferFailed,
    /// The destination for reclaiming the domain is invalid.
    InvalidReclaimDestination,
    /// The private configuration of the vault is not initialized.
    ConfigNotInitialized,
    /// The private configuration of the vault did not pass validation.
    ConfigValidationFailed,
    /// The account does not belong to the vault.
    InvalidVault,
    /// The withdrawal amount is zero.
    InvalidAmount,
    /// The withdrawal is not active.
    WithdrawalNotActive,
    /// The withdrawal plan has expired.
    WithdrawalExpired,
    /// The index names no split.
    InvalidSplitIndex,
    /// The secure computation failed.
    ComputationFailed,
    /// The secure computation was aborted.
    ComputationAborted,
    /// No cluster is set for the secure computation.
    ClusterNotSet,
    /// The cluster returned a result that does not verify.
    InvalidMpcResult,
    /// A withdrawal is already pending for the vault.
    WithdrawalAlreadyPending,
    /// The configuration holds as many destinations as fit.
    MaxDestinationsReached,
    /// The only destination left cannot be removed.
    CannotRemoveLastDestination,
    /// The configuration update is invalid.
    InvalidConfigUpdate,
    /// The new owner is the current owner of the vault.
    VaultOwnerUnchanged,
}

} // verus!
