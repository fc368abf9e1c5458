use vstd::prelude::*;

use crate::errors::CustomError;
use crate::state::CompanyVestingAccount;
use crate::state::EmployeeVestingAccount;
use crate::state::TransferOrder;

verus! {

/// The in-memory registry of grant pools and vesting schedules.  It plays
/// the part of the durable record store: records are keyed by their index of
/// creation (the "handle"), company names are unique across pools, and at
/// most one schedule exists per (beneficiary, pool) pair.
pub struct VestingRegistry {
    pools: Vec<CompanyVestingAccount>,
    schedules: Vec<EmployeeVestingAccount>,
}

impl VestingRegistry {
    /// The pools, in order of creation; a pool handle is an index here.
    pub closed spec fn spec_pools(self) -> Seq<CompanyVestingAccount> {
        self.pools@
    }

    /// The schedules, in order of creation; a schedule handle is an index
    /// here.
    pub closed spec fn spec_schedules(self) -> Seq<EmployeeVestingAccount> {
        self.schedules@
    }

    /// Some registered pool already carries this company name.
    pub open spec fn pool_name_taken(self, name: Seq<char>) -> bool {
        exists|i: int|
            0 <= i < self.spec_pools().len() && #[trigger] self.spec_pools()[i].company_name@
                == name
    }

    /// Some registered schedule already binds this beneficiary to this pool.
    pub open spec fn schedule_exists(self, beneficiary: u64, pool: u64) -> bool {
        exists|i: int|
            0 <= i < self.spec_schedules().len() && #[trigger] self.spec_schedules()[i].beneficiary
                == beneficiary && self.spec_schedules()[i].vesting_account == pool
    }

    /// Registry invariant: company names are unique keys, every schedule is
    /// well formed and references an existing pool, and (beneficiary, pool)
    /// is a unique key over schedules.
    pub open spec fn wf(self) -> bool {
        &&& forall|i: int, j: int|
            0 <= i < j < self.spec_pools().len() ==> #[trigger] self.spec_pools()[i].company_name@
                != #[trigger] self.spec_pools()[j].company_name@
        &&& forall|i: int|
            0 <= i < self.spec_schedules().len() ==> (#[trigger] self.spec_schedules()[i]).wf()
                && (self.spec_schedules()[i].vesting_account as int) < self.spec_pools().len()
        &&& forall|i: int, j: int|
            0 <= i < j < self.spec_schedules().len() ==> !((#[trigger] self.spec_schedules()[i]).beneficiary
                == (#[trigger] self.spec_schedules()[j]).beneficiary && self.spec_schedules()[i].vesting_account
                == self.spec_schedules()[j].vesting_account)
    }

    /// An empty registry.
    pub fn new() -> (r: VestingRegistry)
        ensures
            r.wf(),
            r.spec_pools().len() == 0,
            r.spec_schedules().len() == 0,
    {
        VestingRegistry { pools: Vec::new(), schedules: Vec::new() }
    }

    /// Registers a company grant pool.  The custody balance itself is
    /// allocated by the storage collaborator; its handle is recorded here.
    /// Fails with `AlreadyExists` exactly when the company name is already
    /// registered; on success the new pool's handle is returned and no other
    /// record changes.
    pub fn create_company_vesting_account(
        &mut self,
        owner: u64,
        mint: u64,
        treasury_token_account: u64,
        company_name: String,
    ) -> (r: Result<u64, CustomError>)
        requires
            old(self).wf(),
        ensures
            final(self).wf(),
            final(self).spec_schedules() == old(self).spec_schedules(),
            match r {
                Ok(h) => !old(self).pool_name_taken(company_name@) && h
                    == old(self).spec_pools().len() && final(self).spec_pools() == old(
                    self,
                ).spec_pools().push(
                    (CompanyVestingAccount { owner, company_name, mint, treasury_token_account }),
                ),
                Err(e) => e == CustomError::AlreadyExists && old(self).pool_name_taken(
                    company_name@,
                ) && final(self).spec_pools() == old(self).spec_pools(),
            },
    {
        let n = self.pools.len();
        for i in 0..n
            invariant
                self.wf(),
                n == self.spec_pools().len(),
                self.spec_pools() == old(self).spec_pools(),
                self.spec_schedules() == old(self).spec_schedules(),
                forall|k: int| 0 <= k < i ==> #[trigger] self.spec_pools()[k].company_name@ != company_name@,
        {
            if self.pools[i].company_name == company_name {
                proof {
                    assert(self.spec_pools()[i as int].company_name@ == company_name@);
                }
                return Err(CustomError::AlreadyExists);
            }
        }
        let handle = self.pools.len() as u64;
        self.pools.push(
            CompanyVestingAccount { owner, company_name, mint, treasury_token_account },
        );
        proof {
            assert forall|i: int, j: int| 0 <= i < j < self.spec_pools().len() implies #[trigger] self.spec_pools()[i].company_name@
                != #[trigger] self.spec_pools()[j].company_name@ by {
                if j == self.spec_pools().len() - 1 {
                    assert(self.spec_pools()[i] == old(self).spec_pools()[i]);
                }
            }
        }
        Ok(handle)
    }

    /// The outcome `create_employee_vesting_account` is obliged to produce:
    /// the pool handle must exist (`InvalidAccount`), the caller must be the
    /// pool's owner (`Unauthorized`), the (beneficiary, pool) key must be
    /// fresh (`AlreadyExists`), and then the creation-time validations run
    /// in order; on success the new schedule's handle is returned.
    pub open spec fn spec_create_schedule(
        self,
        owner: u64,
        pool: u64,
        beneficiary: u64,
        start_time: i64,
        end_time: i64,
        cliff: i64,
        total: u64,
    ) -> Result<u64, CustomError> {
        if pool as int >= self.spec_pools().len() {
            Err(CustomError::InvalidAccount)
        } else if owner != self.spec_pools()[pool as int].owner {
            Err(CustomError::Unauthorized)
        } else if self.schedule_exists(beneficiary, pool) {
            Err(CustomError::AlreadyExists)
        } else if end_time == start_time {
            Err(CustomError::InvalidVestingTime)
        } else if cliff == start_time {
            Err(CustomError::InvalidCliffTime)
        } else if total == 0 {
            Err(CustomError::InvalidAmount)
        } else {
            Ok(self.spec_schedules().len() as u64)
        }
    }

    /// Creates an employee vesting schedule against an existing pool, with
    /// `total_withdrawn` starting at zero.  The result and the state change
    /// are pinned by `spec_create_schedule`: on any error no record changes.
    pub fn create_employee_vesting_account(
        &mut self,
        owner: u64,
        pool: u64,
        beneficiary: u64,
        start_time: i64,
        end_time: i64,
        cliff: i64,
        total: u64,
    ) -> (r: Result<u64, CustomError>)
        requires
            old(self).wf(),
        ensures
            final(self).wf(),
            final(self).spec_pools() == old(self).spec_pools(),
            r == old(self).spec_create_schedule(
                owner,
                pool,
                beneficiary,
                start_time,
                end_time,
                cliff,
                total,
            ),
            r is Ok ==> final(self).spec_schedules() == old(self).spec_schedules().push(
                (EmployeeVestingAccount {
                    beneficiary,
                    start_time,
                    end_time,
                    cliff,
                    vesting_account: pool,
                    total_amount: total,
                    total_withdrawn: 0,
                }),
            ),
            r is Err ==> final(self).spec_schedules() == old(self).spec_schedules(),
    {
        if pool >= self.pools.len() as u64 {
            return Err(CustomError::InvalidAccount);
        }
        if owner != self.pools[pool as usize].owner {
            return Err(CustomError::Unauthorized);
        }
        let n = self.schedules.len();
        for i in 0..n
            invariant
                self.wf(),
                (pool as int) < self.spec_pools().len(),
                owner == self.spec_pools()[pool as int].owner,
                n == self.spec_schedules().len(),
                self.spec_pools() == old(self).spec_pools(),
                self.spec_schedules() == old(self).spec_schedules(),
                forall|k: int|
                    0 <= k < i ==> !((#[trigger] self.spec_schedules()[k]).beneficiary
                        == beneficiary && self.spec_schedules()[k].vesting_account == pool),
        {
            if self.schedules[i].beneficiary == beneficiary && self.schedules[i].vesting_account
                == pool {
                proof {
                    assert(self.spec_schedules()[i as int].beneficiary == beneficiary);
                }
                return Err(CustomError::AlreadyExists);
            }
        }
        if end_time == start_time {
            return Err(CustomError::InvalidVestingTime);
        }
        if cliff == start_time {
            return Err(CustomError::InvalidCliffTime);
        }
        if total == 0 {
            return Err(CustomError::InvalidAmount);
        }
        let handle = self.schedules.len() as u64;
        self.schedules.push(
            EmployeeVestingAccount {
                beneficiary,
                start_time,
                end_time,
                cliff,
                vesting_account: pool,
                total_amount: total,
                total_withdrawn: 0,
            },
        );
        proof {
            assert forall|i: int, j: int| 0 <= i < j < self.spec_schedules().len() implies !((
            #[trigger] self.spec_schedules()[i]).beneficiary == (
            #[trigger] self.spec_schedules()[j]).beneficiary
                && self.spec_schedules()[i].vesting_account
                == self.spec_schedules()[j].vesting_account) by {
                if j == self.spec_schedules().len() - 1 {
                    assert(self.spec_schedules()[i] == old(self).spec_schedules()[i]);
                }
            }
        }
        Ok(handle)
    }

    /// The decision `claim_tokens` and `exec_claim_tokens` are obliged to
    /// reach before any transfer: handle validity (`InvalidAccount`), the
    /// caller's identity (`Unauthorized`), pool/schedule cross-reference
    /// (`InvalidAccount`), the cliff gate (`CliffNotPast`), and a nonzero
    /// claimable remainder (`NothingToClaim`); otherwise exactly the
    /// claimable remainder at `now` is owed.
    pub open spec fn spec_claim(self, caller: u64, pool: u64, schedule: u64, now: i64) -> Result<
        u64,
        CustomError,
    > {
        if pool as int >= self.spec_pools().len() || schedule as int
            >= self.spec_schedules().len() {
            Err(CustomError::InvalidAccount)
        } else {
            let s = self.spec_schedules()[schedule as int];
            if caller != s.beneficiary {
                Err(CustomError::Unauthorized)
            } else if s.vesting_account != pool {
                Err(CustomError::InvalidAccount)
            } else if now < s.cliff {
                Err(CustomError::CliffNotPast)
            } else if s.claimable_at(now as int) == 0 {
                Err(CustomError::NothingToClaim)
            } else {
                Ok(s.claimable_at(now as int) as u64)
            }
        }
    }

    /// Decides a claim without touching any state: either the transfer order
    /// the external ledger should execute, or the error owed.  The order
    /// debits the pool's custody balance under the pool's own derived
    /// authority — never under the caller's — and credits the beneficiary.
    pub fn claim_tokens(&self, caller: u64, pool: u64, schedule: u64, now: i64) -> (r: Result<
        TransferOrder,
        CustomError,
    >)
        requires
            self.wf(),
        ensures
            match (r, self.spec_claim(caller, pool, schedule, now)) {
                (Ok(order), Ok(amount)) => order == (TransferOrder {
                    source: self.spec_pools()[pool as int].treasury_token_account,
                    destination_owner: caller,
                    mint: self.spec_pools()[pool as int].mint,
                    amount,
                    authority: self.spec_pools()[pool as int].treasury_token_account,
                }),
                (Err(e), Err(owed)) => e == owed,
                _ => false,
            },
    {
        if pool >= self.pools.len() as u64 || schedule >= self.schedules.len() as u64 {
            return Err(CustomError::InvalidAccount);
        }
        let s = &self.schedules[schedule as usize];
        if caller != s.beneficiary {
            return Err(CustomError::Unauthorized);
        }
        if s.vesting_account != pool {
            return Err(CustomError::InvalidAccount);
        }
        if now < s.cliff {
            return Err(CustomError::CliffNotPast);
        }
        let claimable = s.claimable_amount(now);
        if claimable == 0 {
            return Err(CustomError::NothingToClaim);
        }
        let p = &self.pools[pool as usize];
        Ok(
            TransferOrder {
                source: p.treasury_token_account,
                destination_owner: caller,
                mint: p.mint,
                amount: claimable,
                authority: p.treasury_token_account,
            },
        )
    }

    /// How one settlement call relates the registry before (`pre`) and after
    /// (`post`): on any decision error the result carries it and nothing
    /// changes; on a decided payout, a rejected transfer yields
    /// `TransferFailed` with nothing changed, and an accepted transfer
    /// increments exactly the claimed schedule's withdrawn counter by the
    /// amount paid out.
    pub open spec fn claim_transition(
        pre: VestingRegistry,
        post: VestingRegistry,
        caller: u64,
        pool: u64,
        schedule: u64,
        now: i64,
        transfer_accepted: bool,
        r: Result<u64, CustomError>,
    ) -> bool {
        &&& post.spec_pools() == pre.spec_pools()
        &&& match pre.spec_claim(caller, pool, schedule, now) {
            Err(e) => r == Err::<u64, CustomError>(e) && post.spec_schedules()
                == pre.spec_schedules(),
            Ok(amount) => if transfer_accepted {
                r == Ok::<u64, CustomError>(amount) && post.spec_schedules()
                    == pre.spec_schedules().update(
                    schedule as int,
                    (EmployeeVestingAccount {
                        total_withdrawn: (pre.spec_schedules()[schedule as int].total_withdrawn
                            + amount) as u64,
                        ..pre.spec_schedules()[schedule as int]
                    }),
                )
            } else {
                r == Err::<u64, CustomError>(CustomError::TransferFailed) && post.spec_schedules()
                    == pre.spec_schedules()
            },
        }
    }

    /// Settles one claim atomically with respect to the external transfer:
    /// the caller reports in `transfer_accepted` whether the ledger executed
    /// the order for the decided amount, and the withdrawn counter is
    /// incremented exactly when it did.  The whole behaviour is pinned by
    /// `claim_transition`.
    pub fn exec_claim_tokens(
        &mut self,
        caller: u64,
        pool: u64,
        schedule: u64,
        now: i64,
        transfer_accepted: bool,
    ) -> (r: Result<u64, CustomError>)
        requires
            old(self).wf(),
        ensures
            final(self).wf(),
            VestingRegistry::claim_transition(
                *old(self),
                *final(self),
                caller,
                pool,
                schedule,
                now,
                transfer_accepted,
                r,
            ),
    {
        let decision = self.claim_tokens(caller, pool, schedule, now);
        match decision {
            Err(e) => Err(e),
            Ok(order) => {
                if !transfer_accepted {
                    return Err(CustomError::TransferFailed);
                }
                let n = self.schedules.len();
                proof {
                    assert((schedule as int) < n as int);
                }
                let idx = schedule as usize;
                let s = self.schedules[idx];
                proof {
                    assert(idx as int == schedule as int);
                    assert(s == self.spec_schedules()[schedule as int]);
                    s.lemma_claimable_bounds(now as int);
                    assert(order.amount == s.claimable_at(now as int));
                }
                let updated = EmployeeVestingAccount {
                    total_withdrawn: s.total_withdrawn + order.amount,
                    ..s
                };
                self.schedules.set(idx, updated);
                proof {
                    assert forall|i: int, j: int| 0 <= i < j < self.spec_schedules().len() implies !((
                    #[trigger] self.spec_schedules()[i]).beneficiary == (
                    #[trigger] self.spec_schedules()[j]).beneficiary
                        && self.spec_schedules()[i].vesting_account
                        == self.spec_schedules()[j].vesting_account) by {
                        assert(old(self).spec_schedules()[i].beneficiary
                            == self.spec_schedules()[i].beneficiary && old(
                            self,
                        ).spec_schedules()[i].vesting_account
                            == self.spec_schedules()[i].vesting_account);
                        assert(old(self).spec_schedules()[j].beneficiary
                            == self.spec_schedules()[j].beneficiary && old(
                            self,
                        ).spec_schedules()[j].vesting_account
                            == self.spec_schedules()[j].vesting_account);
                    }
                }
                Ok(order.amount)
            },
        }
    }

    /// Law: no settlement outcome ever decreases any schedule's cumulative
    /// withdrawn counter, so repeated claims — at non-decreasing times or
    /// otherwise — leave every counter monotone.
    pub proof fn lemma_withdrawn_monotone(
        pre: VestingRegistry,
        post: VestingRegistry,
        caller: u64,
        pool: u64,
        schedule: u64,
        now: i64,
        transfer_accepted: bool,
        r: Result<u64, CustomError>,
    )
        requires
            pre.wf(),
            VestingRegistry::claim_transition(
                pre,
                post,
                caller,
                pool,
                schedule,
                now,
                transfer_accepted,
                r,
            ),
        ensures
            post.spec_schedules().len() == pre.spec_schedules().len(),
            forall|i: int|
                0 <= i < pre.spec_schedules().len()
                    ==> (#[trigger] post.spec_schedules()[i]).total_withdrawn
                    >= pre.spec_schedules()[i].total_withdrawn,
    {
    }

    /// Law: a successful claim exhausts the moment — a second claim against
    /// the same schedule at the same `now` finds nothing left to claim.
    pub proof fn lemma_second_claim_same_time(
        pre: VestingRegistry,
        post: VestingRegistry,
        caller: u64,
        pool: u64,
        schedule: u64,
        now: i64,
        r: Result<u64, CustomError>,
    )
        requires
            pre.wf(),
            VestingRegistry::claim_transition(pre, post, caller, pool, schedule, now, true, r),
            r is Ok,
        ensures
            post.spec_claim(caller, pool, schedule, now) == Err::<u64, CustomError>(
                CustomError::NothingToClaim,
            ),
    {
        let s = pre.spec_schedules()[schedule as int];
        s.lemma_claimable_bounds(now as int);
        let t = post.spec_schedules()[schedule as int];
        assert(t.vested_at(now as int) == s.vested_at(now as int));
        assert(t.claimable_at(now as int) == 0);
    }

    /// Law: the cliff gates every claim — before `cliff` an otherwise valid
    /// claim fails with `CliffNotPast` and mutates nothing, even when `now`
    /// is past `start_time` and some amount would otherwise be vested.
    pub proof fn lemma_cliff_gate(
        pre: VestingRegistry,
        post: VestingRegistry,
        caller: u64,
        pool: u64,
        schedule: u64,
        now: i64,
        transfer_accepted: bool,
        r: Result<u64, CustomError>,
    )
        requires
            pre.wf(),
            (pool as int) < pre.spec_pools().len(),
            (schedule as int) < pre.spec_schedules().len(),
            caller == pre.spec_schedules()[schedule as int].beneficiary,
            pre.spec_schedules()[schedule as int].vesting_account == pool,
            now < pre.spec_schedules()[schedule as int].cliff,
            VestingRegistry::claim_transition(
                pre,
                post,
                caller,
                pool,
                schedule,
                now,
                transfer_accepted,
                r,
            ),
        ensures
            r == Err::<u64, CustomError>(CustomError::CliffNotPast),
            post.spec_pools() == pre.spec_pools(),
            post.spec_schedules() == pre.spec_schedules(),
    {
    }

    /// Law: a principal other than the recorded beneficiary cannot claim —
    /// the call fails with `Unauthorized` and mutates nothing.
    pub proof fn lemma_unauthorized_claim(
        pre: VestingRegistry,
        post: VestingRegistry,
        caller: u64,
        pool: u64,
        schedule: u64,
        now: i64,
        transfer_accepted: bool,
        r: Result<u64, CustomError>,
    )
        requires
            pre.wf(),
            (pool as int) < pre.spec_pools().len(),
            (schedule as int) < pre.spec_schedules().len(),
            caller != pre.spec_schedules()[schedule as int].beneficiary,
            VestingRegistry::claim_transition(
                pre,
                post,
                caller,
                pool,
                schedule,
                now,
                transfer_accepted,
                r,
            ),
        ensures
            r == Err::<u64, CustomError>(CustomError::Unauthorized),
            post.spec_pools() == pre.spec_pools(),
            post.spec_schedules() == pre.spec_schedules(),
    {
    }

    /// Law: creation-time validation — on an authorized, fresh request,
    /// `end_time == start_time` is rejected as `InvalidVestingTime`; past
    /// that, `cliff == start_time` as `InvalidCliffTime`; past both, a zero
    /// grant as `InvalidAmount`.
    pub proof fn lemma_creation_validation(
        reg: VestingRegistry,
        owner: u64,
        pool: u64,
        beneficiary: u64,
        start_time: i64,
        end_time: i64,
        cliff: i64,
        total: u64,
    )
        requires
            (pool as int) < reg.spec_pools().len(),
            owner == reg.spec_pools()[pool as int].owner,
            !reg.schedule_exists(beneficiary, pool),
        ensures
            end_time == start_time ==> reg.spec_create_schedule(
                owner,
                pool,
                beneficiary,
                start_time,
                end_time,
                cliff,
                total,
            ) == Err::<u64, CustomError>(CustomError::InvalidVestingTime),
            end_time != start_time && cliff == start_time ==> reg.spec_create_schedule(
                owner,
                pool,
                beneficiary,
                start_time,
                end_time,
                cliff,
                total,
            ) == Err::<u64, CustomError>(CustomError::InvalidCliffTime),
            end_time != start_time && cliff != start_time && total == 0
                ==> reg.spec_create_schedule(
                owner,
                pool,
                beneficiary,
                start_time,
                end_time,
                cliff,
                total,
            ) == Err::<u64, CustomError>(CustomError::InvalidAmount),
    {
    }

    /// The number of registered pools.
    pub fn pool_count(&self) -> (n: usize)
        ensures
            n == self.spec_pools().len(),
    {
        self.pools.len()
    }

    /// The number of registered schedules.
    pub fn schedule_count(&self) -> (n: usize)
        ensures
            n == self.spec_schedules().len(),
    {
        self.schedules.len()
    }

    /// Reads a pool record by handle.
    pub fn get_pool(&self, handle: u64) -> (r: Option<&CompanyVestingAccount>)
        ensures
            match r {
                Some(p) => (handle as int) < self.spec_pools().len() && *p == self.spec_pools()[handle as int],
                None => (handle as int) >= self.spec_pools().len(),
            },
    {
        if handle < self.pools.len() as u64 {
            Some(&self.pools[handle as usize])
        } else {
            None
        }
    }

    /// Reads a schedule record by handle.
    pub fn get_schedule(&self, handle: u64) -> (r: Option<EmployeeVestingAccount>)
        ensures
            match r {
                Some(s) => (handle as int) < self.spec_schedules().len() && s
                    == self.spec_schedules()[handle as int],
                None => (handle as int) >= self.spec_schedules().len(),
            },
    {
        if handle < self.schedules.len() as u64 {
            Some(self.schedules[handle as usize])
        } else {
            None
        }
    }
}

} // verus!
