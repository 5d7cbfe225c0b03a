//! The executable ledger. Every operation promises precisely the
//! outcome and the next state the spec functions in [`crate::model`]
//! give, and preserves the ledger invariant.
//!
//! The host around the library supplies three things per call: the
//! current clock reading `now`, the principals `auths` that authorized
//! the call, and — after a successful `create_policy` or
//! `approve_claim` — the execution of the returned [`Payment`] on its
//! transfer rail, atomically with persisting the new state.

use vstd::prelude::*;

use crate::errors::Error;
use crate::model::{
    approve_claim_next, approve_claim_outcome, claim_wf, create_policy_next,
    create_policy_outcome, get_claim_outcome, get_policy_outcome, initialize_next,
    initialize_outcome, inv, new_claim_model, new_policy_model, premium_inputs_ok, premium_of,
    submit_claim_next, submit_claim_outcome, StateModel,
};
use crate::types::{AccountId, Claim, ClaimModel, Config, Party, Payment, Policy, PolicyModel};

verus! {

/// Whether `who` is among the principals that authorized the call.
fn is_authorized(auths: &[AccountId], who: AccountId) -> (b: bool)
    ensures
        b == auths@.contains(who),
{
    let mut i: usize = 0;
    while i < auths.len()
        invariant
            i <= auths@.len(),
            forall|k: int| 0 <= k < i ==> auths@[k] != who,
        decreases auths@.len() - i,
    {
        if auths[i] == who {
            return true;
        }
        i += 1;
    }
    false
}

/// The ledger: the immutable globals once set, and the two entity
/// collections, a record's id being its position.
pub struct Insurance {
    pub config: Option<Config>,
    pub policies: Vec<Policy>,
    pub claims: Vec<Claim>,
}

impl View for Insurance {
    type V = StateModel;

    open spec fn view(&self) -> StateModel {
        StateModel {
            config: self.config,
            policies: self.policies@.map_values(|p: Policy| p@),
            claims: self.claims@.map_values(|c: Claim| c@),
        }
    }
}

impl Insurance {
    /// The ledger invariant, on the executable state.
    pub open spec fn wf(&self) -> bool {
        inv(self@)
    }

    /// A fresh, uninitialized ledger with empty collections.
    pub fn new() -> (s: Insurance)
        ensures
            s.wf(),
            s@.config is None,
            s@.policies.len() == 0,
            s@.claims.len() == 0,
    {
        Insurance { config: None, policies: Vec::new(), claims: Vec::new() }
    }

    /// Sets the two immutable globals, exactly once in the ledger's life.
    pub fn initialize(&mut self, token: AccountId, admin: AccountId) -> (r: Result<(), Error>)
        requires
            old(self).wf(),
        ensures
            final(self).wf(),
            r == initialize_outcome(old(self)@),
            final(self)@ == initialize_next(old(self)@, token, admin),
            r is Ok ==> final(self)@.config == Some(Config { token, admin }),
            r is Err ==> final(self)@ == old(self)@,
    {
        if self.config.is_some() {
            return Err(Error::AlreadyInitialized);
        }
        self.config = Some(Config { token, admin });
        Ok(())
    }

    /// The premium owed for the coverage over the duration: one tenth
    /// of the coverage per 365 days, clamped to the coverage before the
    /// ceiling. Pure; fails with `InvalidInput` exactly on the inputs
    /// `premium_inputs_ok` refuses.
    pub fn calculate_premium(coverage_amount: i128, duration_in_days: u64) -> (r: Result<
        i128,
        Error,
    >)
        ensures
            r is Ok <==> premium_inputs_ok(coverage_amount as int, duration_in_days as int),
            r matches Ok(p) ==> p == premium_of(coverage_amount as int, duration_in_days as int),
            r matches Ok(p) ==> 0 < p <= coverage_amount,
            r matches Err(e) ==> e == Error::InvalidInput,
    {
        if coverage_amount <= 0 || duration_in_days == 0 {
            return Err(Error::InvalidInput);
        }
        let coverage = coverage_amount as u128;
        let numerator: u128 = match coverage.checked_mul(duration_in_days as u128) {
            Some(product) => match product.checked_add(3649) {
                Some(n) => n,
                None => {
                    return Err(Error::InvalidInput);
                },
            },
            None => {
                return Err(Error::InvalidInput);
            },
        };
        if numerator > i128::MAX as u128 {
            return Err(Error::InvalidInput);
        }
        let ceiling: u128 = numerator / 3650;
        let premium: u128 = if ceiling <= coverage {
            ceiling
        } else {
            coverage
        };
        proof {
            assert(coverage_amount as int * duration_in_days as int >= 1) by (nonlinear_arith)
                requires
                    coverage_amount as int >= 1,
                    duration_in_days as int >= 1,
            ;
        }
        Ok(premium as i128)
    }

    /// Issues a policy to `policy_holder`: computes the premium,
    /// opens the coverage window `[now, now + days * 86400]`, appends
    /// the record under the next id, and returns the escrow movement
    /// of exactly the premium, from the holder to the custodian, for
    /// the host to execute atomically with persisting the new state.
    /// On any error the state is unchanged and nothing moves.
    pub fn create_policy(
        &mut self,
        policy_holder: AccountId,
        coverage_amount: i128,
        duration_in_days: u64,
        clause: String,
        now: u64,
        auths: &[AccountId],
    ) -> (r: Result<Payment, Error>)
        requires
            old(self).wf(),
        ensures
            final(self).wf(),
            r == create_policy_outcome(
                old(self)@,
                policy_holder,
                coverage_amount,
                duration_in_days,
                now,
                auths@,
            ),
            final(self)@ == create_policy_next(
                old(self)@,
                policy_holder,
                coverage_amount,
                duration_in_days,
                clause@,
                now,
                auths@,
            ),
            r is Err ==> final(self)@ == old(self)@,
            r matches Ok(pay) ==> final(self)@.policies.len() == old(self)@.policies.len() + 1
                && pay.amount == premium_of(coverage_amount as int, duration_in_days as int),
    {
        if self.config.is_none() {
            return Err(Error::NotInitialized);
        }
        let premium: i128 = match Self::calculate_premium(coverage_amount, duration_in_days) {
            Ok(p) => p,
            Err(e) => {
                return Err(e);
            },
        };
        let end_date: u64 = match duration_in_days.checked_mul(86400) {
            Some(seconds) => match now.checked_add(seconds) {
                Some(end) => end,
                None => {
                    return Err(Error::InvalidInput);
                },
            },
            None => {
                return Err(Error::InvalidInput);
            },
        };
        if !is_authorized(auths, policy_holder) {
            return Err(Error::Unauthorized);
        }
        let policy = Policy {
            id: self.policies.len() as u64,
            policy_holder,
            premium,
            coverage_amount,
            start_date: now,
            end_date,
            is_active: true,
            is_claimed: false,
            clause,
        };
        let ghost prior = self@;
        self.policies.push(policy);
        proof {
            assert(self@.policies =~= prior.policies.push(
                new_policy_model(
                    prior,
                    policy_holder,
                    coverage_amount,
                    duration_in_days,
                    clause@,
                    now,
                ),
            ));
        }
        Ok(Payment { from: Party::Account(policy_holder), to: Party::Custodian, amount: premium })
    }

    /// Files a claim against the policy under `policy_id`, checking in
    /// this order: the policy exists, is active, is unclaimed, `now`
    /// lies in its coverage window, the amount is in
    /// `(0, coverage_amount]`, and the policy's holder authorized the
    /// call. On success the pending claim is appended under the next
    /// id; no assets move. On any error the state is unchanged.
    pub fn submit_claim(
        &mut self,
        policy_id: u64,
        claim_amount: i128,
        reason: String,
        now: u64,
        auths: &[AccountId],
    ) -> (r: Result<(), Error>)
        requires
            old(self).wf(),
        ensures
            final(self).wf(),
            r == submit_claim_outcome(old(self)@, policy_id, claim_amount, now, auths@),
            final(self)@ == submit_claim_next(
                old(self)@,
                policy_id,
                claim_amount,
                reason@,
                now,
                auths@,
            ),
            r is Err ==> final(self)@ == old(self)@,
            r is Ok ==> final(self)@.claims.len() == old(self)@.claims.len() + 1,
    {
        if self.config.is_none() {
            return Err(Error::NotInitialized);
        }
        if policy_id >= self.policies.len() as u64 {
            return Err(Error::NotFound);
        }
        let policy = &self.policies[policy_id as usize];
        if !policy.is_active {
            return Err(Error::PolicyInactive);
        }
        if policy.is_claimed {
            return Err(Error::PolicyAlreadyClaimed);
        }
        if now < policy.start_date || now > policy.end_date {
            return Err(Error::OutsideCoverageWindow);
        }
        if claim_amount <= 0 || claim_amount > policy.coverage_amount {
            return Err(Error::ClaimExceedsCoverage);
        }
        if !is_authorized(auths, policy.policy_holder) {
            return Err(Error::Unauthorized);
        }
        let claim = Claim {
            policy_id,
            policy_holder: policy.policy_holder,
            claim_amount,
            reason,
            is_approved: false,
        };
        let ghost prior = self@;
        self.claims.push(claim);
        proof {
            assert(self@.claims =~= prior.claims.push(
                new_claim_model(prior, policy_id, claim_amount, reason@),
            ));
            assert(self@.policies =~= prior.policies);
        }
        Ok(())
    }

    /// Approves the claim under `claim_id`: requires the configured
    /// administrator's authorization first, then checks the claim
    /// exists and is pending and its policy exists, is unclaimed and
    /// active. On success the policy closes (`is_active` false,
    /// `is_claimed` true), the claim becomes approved — both
    /// irreversibly — and the returned payout of exactly the claimed
    /// amount, custodian to holder, is for the host to execute
    /// atomically with persisting the new state. On any error the
    /// state is unchanged and nothing moves.
    pub fn approve_claim(&mut self, claim_id: u64, auths: &[AccountId]) -> (r: Result<
        Payment,
        Error,
    >)
        requires
            old(self).wf(),
        ensures
            final(self).wf(),
            r == approve_claim_outcome(old(self)@, claim_id, auths@),
            final(self)@ == approve_claim_next(old(self)@, claim_id, auths@),
            r is Err ==> final(self)@ == old(self)@,
            r matches Ok(pay) ==> {
                let pid = old(self)@.claims[claim_id as int].policy_id as int;
                &&& !final(self)@.policies[pid].is_active
                &&& final(self)@.policies[pid].is_claimed
                &&& final(self)@.claims[claim_id as int].is_approved
                &&& pay == (Payment {
                    from: Party::Custodian,
                    to: Party::Account(final(self)@.policies[pid].policy_holder),
                    amount: old(self)@.claims[claim_id as int].claim_amount,
                })
            },
    {
        let admin: AccountId = match self.config {
            Some(c) => c.admin,
            None => {
                return Err(Error::NotInitialized);
            },
        };
        if !is_authorized(auths, admin) {
            return Err(Error::Unauthorized);
        }
        if claim_id >= self.claims.len() as u64 {
            return Err(Error::NotFound);
        }
        let claim_idx = claim_id as usize;
        if self.claims[claim_idx].is_approved {
            return Err(Error::ClaimAlreadyApproved);
        }
        let policy_id = self.claims[claim_idx].policy_id;
        let payout = self.claims[claim_idx].claim_amount;
        if policy_id >= self.policies.len() as u64 {
            return Err(Error::NotFound);
        }
        let policy_idx = policy_id as usize;
        if self.policies[policy_idx].is_claimed {
            return Err(Error::PolicyAlreadyClaimed);
        }
        if !self.policies[policy_idx].is_active {
            return Err(Error::PolicyInactive);
        }
        let holder = self.policies[policy_idx].policy_holder;
        let ghost prior = self@;
        self.policies[policy_idx].is_claimed = true;
        self.policies[policy_idx].is_active = false;
        self.claims[claim_idx].is_approved = true;
        proof {
            let cid = claim_id as int;
            let pid = policy_id as int;
            let c = prior.claims[cid];
            let p = prior.policies[pid];
            assert(self@.policies =~= prior.policies.update(
                pid,
                PolicyModel { is_active: false, is_claimed: true, ..p },
            ));
            assert(self@.claims =~= prior.claims.update(cid, ClaimModel { is_approved: true, ..c }));
            // No other claim on this policy was ever approved: an
            // approved claim marks its policy claimed, and this policy
            // was not.
            assert forall|j: int|
                0 <= j < prior.claims.len() && j != cid && #[trigger] prior.claims[j].is_approved
                    implies prior.claims[j].policy_id != c.policy_id by {
                assert(claim_wf(prior, prior.claims[j]));
            }
            assert forall|j: int| 0 <= j < self@.claims.len() implies claim_wf(
                self@,
                #[trigger] self@.claims[j],
            ) by {
                assert(claim_wf(prior, prior.claims[j]));
            }
        }
        Ok(Payment { from: Party::Custodian, to: Party::Account(holder), amount: payout })
    }

    /// The policy under `policy_id`, or `NotFound`. On an
    /// uninitialized ledger every id is absent, the collections being
    /// empty.
    pub fn get_policy(&self, policy_id: u64) -> (r: Result<&Policy, Error>)
        ensures
            r matches Ok(p) ==> get_policy_outcome(self@, policy_id) == Ok::<PolicyModel, Error>(
                p@,
            ),
            r matches Err(e) ==> get_policy_outcome(self@, policy_id) == Err::<PolicyModel, Error>(
                e,
            ),
            r is Ok <==> policy_id < self@.policies.len(),
    {
        if policy_id < self.policies.len() as u64 {
            Ok(&self.policies[policy_id as usize])
        } else {
            Err(Error::NotFound)
        }
    }

    /// The claim under `claim_id`, or `NotFound`.
    pub fn get_claim(&self, claim_id: u64) -> (r: Result<&Claim, Error>)
        ensures
            r matches Ok(c) ==> get_claim_outcome(self@, claim_id) == Ok::<ClaimModel, Error>(c@),
            r matches Err(e) ==> get_claim_outcome(self@, claim_id) == Err::<ClaimModel, Error>(e),
            r is Ok <==> claim_id < self@.claims.len(),
    {
        if claim_id < self.claims.len() as u64 {
            Ok(&self.claims[claim_id as usize])
        } else {
            Err(Error::NotFound)
        }
    }

    /// How many policies exist; also the next policy id.
    pub fn policy_count(&self) -> (n: u64)
        ensures
            n == self@.policies.len(),
    {
        self.policies.len() as u64
    }

    /// How many claims exist; also the next claim id.
    pub fn claim_count(&self) -> (n: u64)
        ensures
            n == self@.claims.len(),
    {
        self.claims.len() as u64
    }

    /// A greeting followed by the caller's text.
    pub fn hello(to: String) -> (r: Vec<String>)
        ensures
            r@.len() == 2,
            r@[0]@ == "Hello"@,
            r@[1] == to,
    {
        let mut words: Vec<String> = Vec::new();
        words.push("Hello".to_owned());
        words.push(to);
        words
    }
}

} // verus!
