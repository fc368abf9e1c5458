use vstd::prelude::*;

use crate::state::EmployeeVestingAccount;

verus! {

/// Signed 64-bit subtraction, clamped to the representable range.
pub open spec fn sat_sub_i64(a: int, b: int) -> int {
    if a - b > i64::MAX {
        i64::MAX as int
    } else if a - b < i64::MIN {
        i64::MIN as int
    } else {
        a - b
    }
}

/// Clamped signed subtraction, computed through a wider intermediate.
pub fn sat_sub(a: i64, b: i64) -> (r: i64)
    ensures
        r == sat_sub_i64(a as int, b as int),
{
    let d: i128 = (a as i128) - (b as i128);
    if d > i64::MAX as i128 {
        i64::MAX
    } else if d < i64::MIN as i128 {
        i64::MIN
    } else {
        d as i64
    }
}

impl EmployeeVestingAccount {
    /// The portion of `total_amount` earned by time `now`: the full grant at
    /// or after `end_time`, zero in the pro-rata phase while `now` is still
    /// before `start_time` (negative elapsed time vests nothing), and
    /// otherwise the linear fraction `total * elapsed / duration` computed
    /// over clamped differences.  A product that does not fit in 64 bits
    /// degrades to zero — an internal computation fault yields "nothing
    /// claimable" rather than an arithmetic fault.
    pub open spec fn vested_at(self, now: int) -> int {
        if now >= self.end_time {
            self.total_amount as int
        } else if now < self.start_time {
            0
        } else {
            let elapsed = sat_sub_i64(now, self.start_time as int);
            let duration = sat_sub_i64(self.end_time as int, self.start_time as int);
            let scaled = self.total_amount * elapsed;
            if scaled > u64::MAX {
                0
            } else {
                scaled / duration
            }
        }
    }

    /// The vested amount minus what was already withdrawn, floored at zero.
    pub open spec fn claimable_at(self, now: int) -> int {
        if self.vested_at(now) >= self.total_withdrawn {
            self.vested_at(now) - self.total_withdrawn
        } else {
            0
        }
    }

    /// Computes the vested amount at `now`.
    pub fn vested_amount(&self, now: i64) -> (r: u64)
        ensures
            r == self.vested_at(now as int),
    {
        if now >= self.end_time {
            self.total_amount
        } else if now < self.start_time {
            0
        } else {
            let elapsed: i64 = sat_sub(now, self.start_time);
            let duration: i64 = sat_sub(self.end_time, self.start_time);
            proof {
                assert((self.total_amount as int) * (elapsed as int) <= (u64::MAX as int) * (
                i64::MAX as int)) by (nonlinear_arith)
                    requires
                        0 <= self.total_amount <= u64::MAX,
                        0 <= elapsed <= i64::MAX,
                ;
            }
            let scaled: u128 = (self.total_amount as u128) * (elapsed as u128);
            if scaled > u64::MAX as u128 {
                0
            } else {
                (scaled as u64) / (duration as u64)
            }
        }
    }

    /// Computes the currently claimable remainder at `now`.
    pub fn claimable_amount(&self, now: i64) -> (r: u64)
        ensures
            r == self.claimable_at(now as int),
    {
        let vested = self.vested_amount(now);
        if vested >= self.total_withdrawn {
            vested - self.total_withdrawn
        } else {
            0
        }
    }

    /// Law: the vested amount never leaves `[0, total_amount]`, at any time
    /// whatsoever — saturation and the overflow fail-safe cannot overshoot
    /// the grant.
    pub proof fn lemma_vested_bounds(self, now: int)
        ensures
            0 <= self.vested_at(now) <= self.total_amount,
    {
        if now >= self.end_time {
        } else if now < self.start_time {
        } else {
            let elapsed = sat_sub_i64(now, self.start_time as int);
            let duration = sat_sub_i64(self.end_time as int, self.start_time as int);
            let scaled = self.total_amount * elapsed;
            assert(0 <= elapsed <= duration);
            assert(1 <= duration);
            if scaled <= u64::MAX {
                assert(scaled <= self.total_amount * duration) by (nonlinear_arith)
                    requires
                        elapsed <= duration,
                        0 <= self.total_amount,
                        scaled == self.total_amount * elapsed,
                ;
                assert(0 <= scaled / duration <= self.total_amount) by (nonlinear_arith)
                    requires
                        0 <= scaled <= self.total_amount * duration,
                        1 <= duration,
                ;
            }
        }
    }

    /// Law: at any time, the claimable amount lies between zero and the
    /// unwithdrawn remainder of the grant.
    pub proof fn lemma_claimable_bounds(self, now: int)
        requires
            self.wf(),
        ensures
            0 <= self.claimable_at(now) <= self.total_amount - self.total_withdrawn,
    {
        self.lemma_vested_bounds(now);
    }

    /// Law: at `end_time` and at every later time the vested amount is
    /// exactly the total grant — no overshoot from the saturating math.
    pub proof fn lemma_fully_vested(self, now: int)
        requires
            now >= self.end_time,
        ensures
            self.vested_at(now) == self.total_amount,
            self.vested_at(now) == self.vested_at(self.end_time as int),
    {
    }
}

} // verus!
