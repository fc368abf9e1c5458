use tokenvesting::state::EmployeeVestingAccount;

fn schedule(start: i64, end: i64, cliff: i64, total: u64, withdrawn: u64) -> EmployeeVestingAccount {
    EmployeeVestingAccount {
        beneficiary: 7,
        start_time: start,
        end_time: end,
        cliff,
        vesting_account: 0,
        total_amount: total,
        total_withdrawn: withdrawn,
    }
}

#[test]
fn linear_fraction_midpoints() {
    let s = schedule(1000, 2000, 1500, 1_000_000, 0);
    assert_eq!(s.vested_amount(1400), 400_000);
    assert_eq!(s.vested_amount(1500), 500_000);
    assert_eq!(s.vested_amount(1750), 750_000);
}

#[test]
fn nothing_vested_at_or_before_start() {
    let s = schedule(1000, 2000, 1500, 1_000_000, 0);
    assert_eq!(s.vested_amount(1000), 0);
    assert_eq!(s.vested_amount(999), 0);
    assert_eq!(s.vested_amount(-5), 0);
}

#[test]
fn fully_vested_at_end_and_beyond() {
    let s = schedule(1000, 2000, 1500, 1_000_000, 0);
    assert_eq!(s.vested_amount(2000), 1_000_000);
    assert_eq!(s.vested_amount(3000), 1_000_000);
    assert_eq!(s.vested_amount(i64::MAX), 1_000_000);
}

#[test]
fn claimable_subtracts_withdrawn_and_floors_at_zero() {
    let s = schedule(1000, 2000, 1500, 1_000_000, 500_000);
    assert_eq!(s.claimable_amount(1750), 250_000);
    assert_eq!(s.claimable_amount(3000), 500_000);
    // Already withdrawn more than is vested at this point: floored at zero.
    assert_eq!(s.claimable_amount(1400), 0);
}

#[test]
fn overflowing_product_degrades_to_zero() {
    // total * elapsed does not fit in 64 bits: the fail-safe yields zero
    // vested rather than an arithmetic fault.
    let s = schedule(0, 4, 1, u64::MAX, 0);
    assert_eq!(s.vested_amount(2), 0);
    // At the end the saturating branch still pays the full grant.
    assert_eq!(s.vested_amount(4), u64::MAX);
}

#[test]
fn saturated_time_differences_degrade_to_zero() {
    // The interval is too wide for 64-bit time arithmetic: both differences
    // clamp, the product overflows, and nothing is vested mid-way.
    let s = schedule(i64::MIN, i64::MAX, 0, 10, 0);
    assert_eq!(s.vested_amount(0), 0);
    assert_eq!(s.vested_amount(i64::MAX), 10);
}

#[test]
fn tiny_grant_rounds_down_to_zero_until_late() {
    let s = schedule(0, 1000, 1, 1, 0);
    assert_eq!(s.vested_amount(999), 0);
    assert_eq!(s.vested_amount(1000), 1);
}
