//! The state machine of the ledger, stated over the mathematical models.
//!
//! Each operation is given by two spec functions: its *outcome* — the
//! value or the error it returns — and its *next* state. The executable
//! operations in [`crate::machine`] promise exactly these two in their
//! contracts, and the laws in [`crate::laws`] are proved from them.
//!
//! Validation order is part of the contract: within each operation the
//! checks run in the order the nested conditionals below spell out, so
//! the error a caller sees is deterministic. An uninitialized ledger
//! refuses every other operation first.

use vstd::prelude::*;

use crate::errors::Error;
use crate::types::{AccountId, ClaimModel, Config, Party, Payment, PolicyModel};

verus! {

/// The whole ledger: the two immutable globals once set, and the two
/// entity collections. A record's id is its position in its sequence,
/// so the two counters of the persisted layout are the two lengths.
pub ghost struct StateModel {
    pub config: Option<Config>,
    pub policies: Seq<PolicyModel>,
    pub claims: Seq<ClaimModel>,
}

/// The premium owed for `coverage_amount` over `duration_in_days`:
/// one tenth of the coverage per 365 days, clamped to at most the
/// coverage, rounded up to the nearest integer. The clamp is applied
/// to the exact rational `c * d / 3650` before the ceiling, so the
/// result never exceeds the coverage even after rounding; since the
/// bound is an integer, that equals clamping the ceiling itself.
pub open spec fn premium_of(coverage_amount: int, duration_in_days: int) -> int {
    let ceiling = (coverage_amount * duration_in_days + 3649) / 3650;
    if ceiling <= coverage_amount {
        ceiling
    } else {
        coverage_amount
    }
}

/// The premium inputs the fixed-width arithmetic accepts: positive
/// coverage and duration, with the ceiling's numerator within `i128`.
pub open spec fn premium_inputs_ok(coverage_amount: int, duration_in_days: int) -> bool {
    &&& 0 < coverage_amount
    &&& 0 < duration_in_days
    &&& coverage_amount * duration_in_days + 3649 <= i128::MAX
}

/// A policy record in itself: premium within `[0, coverage]`, positive
/// coverage, a non-empty coverage window, and a claimed policy is closed.
pub open spec fn policy_wf(p: PolicyModel) -> bool {
    &&& 0 <= p.premium <= p.coverage_amount
    &&& 0 < p.coverage_amount
    &&& p.start_date < p.end_date
    &&& p.is_claimed ==> !p.is_active
}

/// A claim record against the collection it points into: the referenced
/// policy exists, the holder was copied from it, the amount was within
/// its coverage, and an approved claim marks its policy claimed.
pub open spec fn claim_wf(s: StateModel, c: ClaimModel) -> bool {
    &&& c.policy_id < s.policies.len()
    &&& c.policy_holder == s.policies[c.policy_id as int].policy_holder
    &&& 0 < c.claim_amount <= s.policies[c.policy_id as int].coverage_amount
    &&& c.is_approved ==> s.policies[c.policy_id as int].is_claimed
}

/// The ledger invariant, holding after every operation: ids equal
/// positions, every record is well formed, at most one approved claim
/// exists per policy, and nothing exists before initialization.
pub open spec fn inv(s: StateModel) -> bool {
    &&& forall|i: int|
        0 <= i < s.policies.len() ==> policy_wf(#[trigger] s.policies[i]) && s.policies[i].id == i
    &&& forall|j: int| 0 <= j < s.claims.len() ==> claim_wf(s, #[trigger] s.claims[j])
    &&& forall|j1: int, j2: int|
        0 <= j1 < s.claims.len() && 0 <= j2 < s.claims.len() && j1 != j2
            && #[trigger] s.claims[j1].is_approved && #[trigger] s.claims[j2].is_approved
            ==> s.claims[j1].policy_id != s.claims[j2].policy_id
    &&& s.config is None ==> s.policies.len() == 0 && s.claims.len() == 0
}

/// What `initialize` returns: refused once the globals are set.
pub open spec fn initialize_outcome(s: StateModel) -> Result<(), Error> {
    if s.config is Some {
        Err(Error::AlreadyInitialized)
    } else {
        Ok(())
    }
}

/// The state after `initialize`.
pub open spec fn initialize_next(s: StateModel, token: AccountId, admin: AccountId) -> StateModel {
    if s.config is Some {
        s
    } else {
        StateModel { config: Some(Config { token, admin }), ..s }
    }
}

/// The error `create_policy` stops at, if any: the ledger must be
/// initialized, the premium and the dates must be computable in the
/// fixed widths, and the holder must have authorized the operation.
pub open spec fn create_policy_error(
    s: StateModel,
    policy_holder: AccountId,
    coverage_amount: i128,
    duration_in_days: u64,
    now: u64,
    auths: Seq<AccountId>,
) -> Option<Error> {
    if s.config is None {
        Some(Error::NotInitialized)
    } else if !premium_inputs_ok(coverage_amount as int, duration_in_days as int) {
        Some(Error::InvalidInput)
    } else if now + duration_in_days * 86400 > u64::MAX {
        Some(Error::InvalidInput)
    } else if !auths.contains(policy_holder) {
        Some(Error::Unauthorized)
    } else {
        None
    }
}

/// The record `create_policy` appends: next id, the window
/// `[now, now + days * 86400]`, the computed premium, open and unclaimed.
pub open spec fn new_policy_model(
    s: StateModel,
    policy_holder: AccountId,
    coverage_amount: i128,
    duration_in_days: u64,
    clause: Seq<char>,
    now: u64,
) -> PolicyModel {
    PolicyModel {
        id: s.policies.len() as u64,
        policy_holder,
        premium: premium_of(coverage_amount as int, duration_in_days as int) as i128,
        coverage_amount,
        start_date: now,
        end_date: (now + duration_in_days * 86400) as u64,
        is_active: true,
        is_claimed: false,
        clause,
    }
}

/// What `create_policy` returns: the escrow movement of exactly the
/// computed premium, from the holder to the custodian, or the error.
pub open spec fn create_policy_outcome(
    s: StateModel,
    policy_holder: AccountId,
    coverage_amount: i128,
    duration_in_days: u64,
    now: u64,
    auths: Seq<AccountId>,
) -> Result<Payment, Error> {
    match create_policy_error(s, policy_holder, coverage_amount, duration_in_days, now, auths) {
        Some(e) => Err(e),
        None => Ok(
            Payment {
                from: Party::Account(policy_holder),
                to: Party::Custodian,
                amount: premium_of(coverage_amount as int, duration_in_days as int) as i128,
            },
        ),
    }
}

/// The state after `create_policy`: unchanged on an error, otherwise
/// the new record appended and everything else untouched.
pub open spec fn create_policy_next(
    s: StateModel,
    policy_holder: AccountId,
    coverage_amount: i128,
    duration_in_days: u64,
    clause: Seq<char>,
    now: u64,
    auths: Seq<AccountId>,
) -> StateModel {
    if create_policy_error(s, policy_holder, coverage_amount, duration_in_days, now, auths)
        is Some {
        s
    } else {
        StateModel {
            policies: s.policies.push(
                new_policy_model(s, policy_holder, coverage_amount, duration_in_days, clause, now),
            ),
            ..s
        }
    }
}

/// The error `submit_claim` stops at, if any, in the order the
/// contract fixes: existence, then policy state, then the coverage
/// window, then the amount, then the holder's authorization.
pub open spec fn submit_claim_error(
    s: StateModel,
    policy_id: u64,
    claim_amount: i128,
    now: u64,
    auths: Seq<AccountId>,
) -> Option<Error> {
    if s.config is None {
        Some(Error::NotInitialized)
    } else if policy_id >= s.policies.len() {
        Some(Error::NotFound)
    } else {
        let p = s.policies[policy_id as int];
        if !p.is_active {
            Some(Error::PolicyInactive)
        } else if p.is_claimed {
            Some(Error::PolicyAlreadyClaimed)
        } else if now < p.start_date || now > p.end_date {
            Some(Error::OutsideCoverageWindow)
        } else if claim_amount <= 0 || claim_amount > p.coverage_amount {
            Some(Error::ClaimExceedsCoverage)
        } else if !auths.contains(p.policy_holder) {
            Some(Error::Unauthorized)
        } else {
            None
        }
    }
}

/// What `submit_claim` returns: nothing on success — submission only
/// records intent, no assets move — or the error.
pub open spec fn submit_claim_outcome(
    s: StateModel,
    policy_id: u64,
    claim_amount: i128,
    now: u64,
    auths: Seq<AccountId>,
) -> Result<(), Error> {
    match submit_claim_error(s, policy_id, claim_amount, now, auths) {
        Some(e) => Err(e),
        None => Ok(()),
    }
}

/// The record `submit_claim` appends: pending, with the holder copied
/// from the referenced policy.
pub open spec fn new_claim_model(
    s: StateModel,
    policy_id: u64,
    claim_amount: i128,
    reason: Seq<char>,
) -> ClaimModel {
    ClaimModel {
        policy_id,
        policy_holder: s.policies[policy_id as int].policy_holder,
        claim_amount,
        reason,
        is_approved: false,
    }
}

/// The state after `submit_claim`: unchanged on an error, otherwise the
/// new pending claim appended. Submission moves no assets.
pub open spec fn submit_claim_next(
    s: StateModel,
    policy_id: u64,
    claim_amount: i128,
    reason: Seq<char>,
    now: u64,
    auths: Seq<AccountId>,
) -> StateModel {
    if submit_claim_error(s, policy_id, claim_amount, now, auths) is Some {
        s
    } else {
        StateModel { claims: s.claims.push(new_claim_model(s, policy_id, claim_amount, reason)), ..s }
    }
}

/// The error `approve_claim` stops at, if any: the administrator's
/// authorization first, then the claim's existence and state, then the
/// referenced policy's existence and state.
pub open spec fn approve_claim_error(
    s: StateModel,
    claim_id: u64,
    auths: Seq<AccountId>,
) -> Option<Error> {
    if s.config is None {
        Some(Error::NotInitialized)
    } else if !auths.contains(s.config->Some_0.admin) {
        Some(Error::Unauthorized)
    } else if claim_id >= s.claims.len() {
        Some(Error::NotFound)
    } else {
        let c = s.claims[claim_id as int];
        if c.is_approved {
            Some(Error::ClaimAlreadyApproved)
        } else if c.policy_id >= s.policies.len() {
            Some(Error::NotFound)
        } else {
            let p = s.policies[c.policy_id as int];
            if p.is_claimed {
                Some(Error::PolicyAlreadyClaimed)
            } else if !p.is_active {
                Some(Error::PolicyInactive)
            } else {
                None
            }
        }
    }
}

/// What `approve_claim` returns: the payout movement of exactly the
/// claimed amount, from the custodian to the policy's holder, or the error.
pub open spec fn approve_claim_outcome(
    s: StateModel,
    claim_id: u64,
    auths: Seq<AccountId>,
) -> Result<Payment, Error> {
    match approve_claim_error(s, claim_id, auths) {
        Some(e) => Err(e),
        None => Ok(
            Payment {
                from: Party::Custodian,
                to: Party::Account(s.claims[claim_id as int].policy_holder),
                amount: s.claims[claim_id as int].claim_amount,
            },
        ),
    }
}

/// The state after `approve_claim`: unchanged on an error, otherwise
/// the one irreversible transition of the machine — the policy goes
/// from active and unclaimed to inactive and claimed, and the claim
/// from pending to approved. No other field and no other record moves.
pub open spec fn approve_claim_next(
    s: StateModel,
    claim_id: u64,
    auths: Seq<AccountId>,
) -> StateModel {
    if approve_claim_error(s, claim_id, auths) is Some {
        s
    } else {
        let c = s.claims[claim_id as int];
        let p = s.policies[c.policy_id as int];
        StateModel {
            policies: s.policies.update(
                c.policy_id as int,
                PolicyModel { is_active: false, is_claimed: true, ..p },
            ),
            claims: s.claims.update(claim_id as int, ClaimModel { is_approved: true, ..c }),
            ..s
        }
    }
}

/// What `get_policy` returns: the record under the id, or `NotFound`.
pub open spec fn get_policy_outcome(s: StateModel, policy_id: u64) -> Result<PolicyModel, Error> {
    if policy_id < s.policies.len() {
        Ok(s.policies[policy_id as int])
    } else {
        Err(Error::NotFound)
    }
}

/// What `get_claim` returns: the record under the id, or `NotFound`.
pub open spec fn get_claim_outcome(s: StateModel, claim_id: u64) -> Result<ClaimModel, Error> {
    if claim_id < s.claims.len() {
        Ok(s.claims[claim_id as int])
    } else {
        Err(Error::NotFound)
    }
}

} // verus!
