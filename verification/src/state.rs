use vstd::prelude::*;

verus! {

/// A company-scoped grant pool: the custody account for one token type,
/// controlled by one owner principal.  Identities and account handles are
/// plain integers; allocating the underlying custody balance is the storage
/// collaborator's job, so its handle is supplied at creation.
///
/// The owner and token type are fixed at creation: no operation of this
/// library ever writes to a pool record.
pub struct CompanyVestingAccount {
    /// The principal allowed to create employee schedules against this pool.
    pub owner: u64,
    /// Unique human-readable company identifier; the pool's derivation key.
    pub company_name: String,
    /// The token type held in custody.
    pub mint: u64,
    /// Handle of the pooled custody balance.  It doubles as the pool's
    /// derived custody authority: only the engine ever moves funds out of it.
    pub treasury_token_account: u64,
}

/// One employee's vesting terms and withdrawal history against a pool.
/// All timestamps share one unit; amounts are in the smallest token unit.
#[derive(Clone, Copy, Debug, PartialEq, Eq, Structural)]
pub struct EmployeeVestingAccount {
    /// The only principal allowed to claim against this schedule.
    pub beneficiary: u64,
    /// When linear vesting begins.
    pub start_time: i64,
    /// When the grant is fully vested.
    pub end_time: i64,
    /// Earliest time at which any claim is permitted.
    pub cliff: i64,
    /// Handle of the owning pool.
    pub vesting_account: u64,
    /// The fixed total grant.
    pub total_amount: u64,
    /// Cumulative amount already paid out; monotonically non-decreasing.
    pub total_withdrawn: u64,
}

/// An instruction to the external ledger collaborator: move `amount` units
/// of `mint` from the pool's custody balance to the beneficiary, authorized
/// by the pool's derived custody authority rather than by any caller's key.
#[derive(Clone, Copy, Debug, PartialEq, Eq, Structural)]
pub struct TransferOrder {
    /// Custody balance to debit.
    pub source: u64,
    /// Principal to credit.
    pub destination_owner: u64,
    /// Token type being moved.
    pub mint: u64,
    /// Units to move.
    pub amount: u64,
    /// The custody authority under which the debit is authorized.
    pub authority: u64,
}

impl EmployeeVestingAccount {
    /// Well-formedness, established at creation and preserved by settlement:
    /// a positive grant, vesting and cliff intervals of nonzero length, and a
    /// withdrawn counter that never exceeds the grant.
    pub open spec fn wf(self) -> bool {
        &&& self.total_amount > 0
        &&& self.end_time != self.start_time
        &&& self.cliff != self.start_time
        &&& self.total_withdrawn <= self.total_amount
    }
}

} // verus!
