use vstd::prelude::*;

verus! {

/// Every failure condition of the vesting engine.  Each error is terminal for
/// the call that raised it; the engine never retries on its own.
#[derive(Clone, Copy, Debug, PartialEq, Eq, Structural)]
pub enum CustomError {
    /// A pool with the same company name, or a schedule for the same
    /// (beneficiary, pool) pair, is already registered.
    AlreadyExists,
    /// The caller does not match the required authority (pool owner for
    /// schedule creation, recorded beneficiary for claims).
    Unauthorized,
    /// A supplied pool or schedule handle is unknown, or the pool and
    /// schedule do not reference each other consistently.
    InvalidAccount,
    /// Schedule creation with `end_time == start_time`.
    InvalidVestingTime,
    /// Schedule creation with `cliff == start_time`.
    InvalidCliffTime,
    /// Schedule creation with a zero total grant.
    InvalidAmount,
    /// A claim attempted before the schedule's cliff time.
    CliffNotPast,
    /// A claim attempted when the currently claimable amount is zero, either
    /// because nothing further has vested or because everything vested has
    /// already been withdrawn.
    NothingToClaim,
    /// The external transfer collaborator rejected the payout; the schedule
    /// state is left untouched.
    TransferFailed,
}

impl CustomError {
    /// A human-readable description of the error.
    pub fn message(&self) -> (r: &'static str)
        ensures
            r@ =~= match self {
                CustomError::AlreadyExists => "Account already exists"@,
                CustomError::Unauthorized => "Unauthorized"@,
                CustomError::InvalidAccount => "Invalid account"@,
                CustomError::InvalidVestingTime => "Invalid vesting time"@,
                CustomError::InvalidCliffTime => "Invalid cliff time"@,
                CustomError::InvalidAmount => "Invalid amount"@,
                CustomError::CliffNotPast => "Claim not available yet"@,
                CustomError::NothingToClaim => "Vault depleted"@,
                CustomError::TransferFailed => "Transfer failed"@,
            },
    {
        match self {
            CustomError::AlreadyExists => "Account already exists",
            CustomError::Unauthorized => "Unauthorized",
            CustomError::InvalidAccount => "Invalid account",
            CustomError::InvalidVestingTime => "Invalid vesting time",
            CustomError::InvalidCliffTime => "Invalid cliff time",
            CustomError::InvalidAmount => "Invalid amount",
            CustomError::CliffNotPast => "Claim not available yet",
            CustomError::NothingToClaim => "Vault depleted",
            CustomError::TransferFailed => "Transfer failed",
        }
    }
}

} // verus!
