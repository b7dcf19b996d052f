//! The protocol-wide error type.
use vstd::prelude::*;

verus! {

/// Errors returned by protocol operations.
#[derive(Clone, Copy, Debug, PartialEq, Eq, Structural)]
pub enum ProtocolError {
    Unauthorized,
    InsufficientCollateral,
    InsufficientCollateralRatio,
    InvalidAmount,
    InvalidAddress,
    PositionNotFound,
    AlreadyInitialized,
    NotInitialized,
    InvalidInput,
    NotEligibleForLiquidation,
    ProtocolPaused,
    AssetNotSupported,
    OracleFailure,
    ReentrancyDetected,
    StorageError,
    ConfigurationError,
    NotFound,
    AlreadyExists,
    InvalidOperation,
    RecoveryFailed,
    InvalidParameters,
    StorageLimitExceeded,
    RecoveryModeRestricted,
    EmergencyFundInsufficient,
    UserNotVerified,
    UserSuspended,
    UserLimitExceeded,
    UserRoleViolation,
    BalanceInvariantViolation,
    InsufficientLiquidity,
    SlippageProtectionTriggered,
}

/// Fails with `InvalidAmount` unless `amount` is positive.
pub fn _ensure_amount_positive(amount: i128) -> (r: Result<(), ProtocolError>)
    ensures
        r == (if amount > 0 {
            Ok::<(), ProtocolError>(())
        } else {
            Err(ProtocolError::InvalidAmount)
        }),
{
    if amount <= 0 {
        return Err(ProtocolError::InvalidAmount);
    }
    Ok(())
}

} // verus!
