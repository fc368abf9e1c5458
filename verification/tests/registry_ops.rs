use tokenvesting::errors::CustomError;
use tokenvesting::registry::VestingRegistry;

const OWNER: u64 = 1;
const EMPLOYEE: u64 = 2;
const MINT: u64 = 7;
const TREASURY: u64 = 100;

fn registry_with_pool() -> (VestingRegistry, u64) {
    let mut reg = VestingRegistry::new();
    let pool = reg
        .create_company_vesting_account(OWNER, MINT, TREASURY, String::from("acme"))
        .unwrap();
    (reg, pool)
}

#[test]
fn duplicate_company_name_rejected() {
    let (mut reg, _) = registry_with_pool();
    let r = reg.create_company_vesting_account(OWNER, MINT, 101, String::from("acme"));
    assert_eq!(r, Err(CustomError::AlreadyExists));
    assert_eq!(reg.pool_count(), 1);
    let other = reg.create_company_vesting_account(OWNER, MINT, 101, String::from("globex"));
    assert_eq!(other, Ok(1));
    assert_eq!(reg.pool_count(), 2);
}

#[test]
fn pool_records_its_identity() {
    let (reg, pool) = registry_with_pool();
    let p = reg.get_pool(pool).unwrap();
    assert_eq!(p.owner, OWNER);
    assert_eq!(p.mint, MINT);
    assert_eq!(p.treasury_token_account, TREASURY);
    assert_eq!(p.company_name, "acme");
    assert!(reg.get_pool(99).is_none());
}

#[test]
fn schedule_creation_validation_order() {
    let (mut reg, pool) = registry_with_pool();
    // Equal start and end times.
    let r = reg.create_employee_vesting_account(OWNER, pool, EMPLOYEE, 1000, 1000, 1500, 10);
    assert_eq!(r, Err(CustomError::InvalidVestingTime));
    // Cliff equal to start.
    let r = reg.create_employee_vesting_account(OWNER, pool, EMPLOYEE, 1000, 2000, 1000, 10);
    assert_eq!(r, Err(CustomError::InvalidCliffTime));
    // Zero grant.
    let r = reg.create_employee_vesting_account(OWNER, pool, EMPLOYEE, 1000, 2000, 1500, 0);
    assert_eq!(r, Err(CustomError::InvalidAmount));
    // Nothing was persisted by the failed attempts.
    assert_eq!(reg.schedule_count(), 0);
}

#[test]
fn schedule_creation_requires_pool_owner() {
    let (mut reg, pool) = registry_with_pool();
    let r = reg.create_employee_vesting_account(42, pool, EMPLOYEE, 1000, 2000, 1500, 10);
    assert_eq!(r, Err(CustomError::Unauthorized));
    let r = reg.create_employee_vesting_account(OWNER, pool + 1, EMPLOYEE, 1000, 2000, 1500, 10);
    assert_eq!(r, Err(CustomError::InvalidAccount));
    assert_eq!(reg.schedule_count(), 0);
}

#[test]
fn one_schedule_per_beneficiary_and_pool() {
    let (mut reg, pool) = registry_with_pool();
    let first = reg.create_employee_vesting_account(OWNER, pool, EMPLOYEE, 1000, 2000, 1500, 10);
    assert_eq!(first, Ok(0));
    let again = reg.create_employee_vesting_account(OWNER, pool, EMPLOYEE, 5, 6, 7, 8);
    assert_eq!(again, Err(CustomError::AlreadyExists));
    // A different beneficiary against the same pool is fine.
    let other = reg.create_employee_vesting_account(OWNER, pool, 3, 1000, 2000, 1500, 10);
    assert_eq!(other, Ok(1));
    let s = reg.get_schedule(0).unwrap();
    assert_eq!(s.total_withdrawn, 0);
    assert_eq!(s.total_amount, 10);
}

#[test]
fn claim_order_carries_pool_authority() {
    let (mut reg, pool) = registry_with_pool();
    let sched = reg
        .create_employee_vesting_account(OWNER, pool, EMPLOYEE, 1000, 2000, 1500, 1_000_000)
        .unwrap();
    let order = reg.claim_tokens(EMPLOYEE, pool, sched, 1500).unwrap();
    assert_eq!(order.source, TREASURY);
    assert_eq!(order.authority, TREASURY);
    assert_eq!(order.mint, MINT);
    assert_eq!(order.destination_owner, EMPLOYEE);
    assert_eq!(order.amount, 500_000);
}

#[test]
fn vesting_scenario_settles_incrementally() {
    let (mut reg, pool) = registry_with_pool();
    let sched = reg
        .create_employee_vesting_account(OWNER, pool, EMPLOYEE, 1000, 2000, 1500, 1_000_000)
        .unwrap();

    // Before the cliff, even though some amount is mathematically vested.
    assert_eq!(
        reg.exec_claim_tokens(EMPLOYEE, pool, sched, 1400, true),
        Err(CustomError::CliffNotPast)
    );
    assert_eq!(reg.get_schedule(sched).unwrap().total_withdrawn, 0);

    // At the cliff, half the grant is claimable.
    assert_eq!(reg.exec_claim_tokens(EMPLOYEE, pool, sched, 1500, true), Ok(500_000));
    assert_eq!(reg.get_schedule(sched).unwrap().total_withdrawn, 500_000);

    // Later, only the newly vested increment.
    assert_eq!(reg.exec_claim_tokens(EMPLOYEE, pool, sched, 1750, true), Ok(250_000));
    assert_eq!(reg.get_schedule(sched).unwrap().total_withdrawn, 750_000);

    // Past the end, the unwithdrawn remainder.
    assert_eq!(reg.exec_claim_tokens(EMPLOYEE, pool, sched, 3000, true), Ok(250_000));
    assert_eq!(reg.get_schedule(sched).unwrap().total_withdrawn, 1_000_000);

    // A further claim at the same time finds nothing.
    assert_eq!(
        reg.exec_claim_tokens(EMPLOYEE, pool, sched, 3000, true),
        Err(CustomError::NothingToClaim)
    );
    assert_eq!(reg.get_schedule(sched).unwrap().total_withdrawn, 1_000_000);
}

#[test]
fn claim_before_cliff_fails_even_past_start() {
    let (mut reg, pool) = registry_with_pool();
    let sched = reg
        .create_employee_vesting_account(OWNER, pool, EMPLOYEE, 1000, 2000, 1500, 1_000_000)
        .unwrap();
    assert_eq!(
        reg.claim_tokens(EMPLOYEE, pool, sched, 1499),
        Err(CustomError::CliffNotPast)
    );
}

#[test]
fn unauthorized_claim_mutates_nothing() {
    let (mut reg, pool) = registry_with_pool();
    let sched = reg
        .create_employee_vesting_account(OWNER, pool, EMPLOYEE, 1000, 2000, 1500, 1_000_000)
        .unwrap();
    // Neither the pool owner nor a stranger may claim.
    assert_eq!(
        reg.exec_claim_tokens(OWNER, pool, sched, 1600, true),
        Err(CustomError::Unauthorized)
    );
    assert_eq!(
        reg.exec_claim_tokens(42, pool, sched, 1600, true),
        Err(CustomError::Unauthorized)
    );
    assert_eq!(reg.get_schedule(sched).unwrap().total_withdrawn, 0);
}

#[test]
fn mismatched_handles_are_invalid() {
    let (mut reg, pool) = registry_with_pool();
    let other_pool = reg
        .create_company_vesting_account(OWNER, MINT, 101, String::from("globex"))
        .unwrap();
    let sched = reg
        .create_employee_vesting_account(OWNER, pool, EMPLOYEE, 1000, 2000, 1500, 1_000_000)
        .unwrap();
    // Schedule does not belong to this pool.
    assert_eq!(
        reg.claim_tokens(EMPLOYEE, other_pool, sched, 1600),
        Err(CustomError::InvalidAccount)
    );
    // Unknown handles.
    assert_eq!(reg.claim_tokens(EMPLOYEE, 9, sched, 1600), Err(CustomError::InvalidAccount));
    assert_eq!(reg.claim_tokens(EMPLOYEE, pool, 9, 1600), Err(CustomError::InvalidAccount));
}

#[test]
fn rejected_transfer_leaves_counter_untouched() {
    let (mut reg, pool) = registry_with_pool();
    let sched = reg
        .create_employee_vesting_account(OWNER, pool, EMPLOYEE, 1000, 2000, 1500, 1_000_000)
        .unwrap();
    assert_eq!(
        reg.exec_claim_tokens(EMPLOYEE, pool, sched, 1500, false),
        Err(CustomError::TransferFailed)
    );
    assert_eq!(reg.get_schedule(sched).unwrap().total_withdrawn, 0);
    // The same claim succeeds once the transfer goes through.
    assert_eq!(reg.exec_claim_tokens(EMPLOYEE, pool, sched, 1500, true), Ok(500_000));
}

#[test]
fn negative_elapsed_time_vests_nothing() {
    let (mut reg, pool) = registry_with_pool();
    // The cliff may lie before the start; such a claim finds nothing vested.
    let sched = reg
        .create_employee_vesting_account(OWNER, pool, EMPLOYEE, 1000, 2000, 500, 1)
        .unwrap();
    assert_eq!(
        reg.exec_claim_tokens(EMPLOYEE, pool, sched, 600, true),
        Err(CustomError::NothingToClaim)
    );
}

#[test]
fn error_messages_describe_each_variant() {
    assert_eq!(CustomError::CliffNotPast.message(), "Claim not available yet");
    assert_eq!(CustomError::NothingToClaim.message(), "Vault depleted");
    assert_eq!(CustomError::InvalidAmount.message(), "Invalid amount");
    assert_eq!(CustomError::InvalidCliffTime.message(), "Invalid cliff time");
    assert_eq!(CustomError::InvalidVestingTime.message(), "Invalid vesting time");
    assert_eq!(CustomError::AlreadyExists.message(), "Account already exists");
    assert_eq!(CustomError::Unauthorized.message(), "Unauthorized");
    assert_eq!(CustomError::InvalidAccount.message(), "Invalid account");
    assert_eq!(CustomError::TransferFailed.message(), "Transfer failed");
}
