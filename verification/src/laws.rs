//! The laws of the ledger, proved over the state machine in
//! [`crate::model`]. The executable operations promise exactly the
//! `outcome` and `next` spec functions these lemmas speak of, so each
//! law carries over to every run of the library.

use vstd::prelude::*;

use crate::errors::Error;
use crate::model::{
    approve_claim_next, approve_claim_outcome, claim_wf, create_policy_next,
    create_policy_outcome, get_claim_outcome, get_policy_outcome, inv, premium_inputs_ok,
    premium_of, submit_claim_next, submit_claim_outcome, StateModel,
};
use crate::types::{AccountId, ClaimModel, Party, Payment, PolicyModel};

verus! {

/// For every positive coverage and duration, the premium is an integer
/// within `[0, coverage_amount]` — the clamp before the ceiling keeps
/// the rounding from ever exceeding the coverage.
pub proof fn lemma_premium_within_coverage(coverage_amount: int, duration_in_days: int)
    requires
        0 < coverage_amount,
        0 < duration_in_days,
    ensures
        0 <= premium_of(coverage_amount, duration_in_days) <= coverage_amount,
{
    assert(coverage_amount * duration_in_days >= 1) by (nonlinear_arith)
        requires
            coverage_amount >= 1,
            duration_in_days >= 1,
    ;
    assert((coverage_amount * duration_in_days + 3649) / 3650 >= 0);
}

/// A successful `create_policy` escrows exactly the computed premium,
/// from the holder to the custodian, and assigns the next sequential
/// id: the first policy gets id 0, the second id 1, and so on.
pub proof fn lemma_create_policy_escrows_premium(
    s: StateModel,
    policy_holder: AccountId,
    coverage_amount: i128,
    duration_in_days: u64,
    clause: Seq<char>,
    now: u64,
    auths: Seq<AccountId>,
)
    requires
        inv(s),
        create_policy_outcome(s, policy_holder, coverage_amount, duration_in_days, now, auths)
            is Ok,
    ensures
        create_policy_outcome(s, policy_holder, coverage_amount, duration_in_days, now, auths)
            == Ok::<Payment, Error>(
            Payment {
                from: Party::Account(policy_holder),
                to: Party::Custodian,
                amount: premium_of(coverage_amount as int, duration_in_days as int) as i128,
            },
        ),
        ({
            let s2 = create_policy_next(
                s,
                policy_holder,
                coverage_amount,
                duration_in_days,
                clause,
                now,
                auths,
            );
            &&& s2.policies.len() == s.policies.len() + 1
            &&& s2.policies[s.policies.len() as int].id == s.policies.len() as u64
            &&& s2.claims == s.claims
        }),
{
}

/// A claim for more than the coverage is refused with
/// `ClaimExceedsCoverage`, and the collections are left unchanged.
pub proof fn lemma_oversized_claim_rejected(
    s: StateModel,
    policy_id: u64,
    claim_amount: i128,
    reason: Seq<char>,
    now: u64,
    auths: Seq<AccountId>,
)
    requires
        s.config is Some,
        policy_id < s.policies.len(),
        s.policies[policy_id as int].is_active,
        !s.policies[policy_id as int].is_claimed,
        s.policies[policy_id as int].start_date <= now <= s.policies[policy_id as int].end_date,
        claim_amount > s.policies[policy_id as int].coverage_amount,
    ensures
        submit_claim_outcome(s, policy_id, claim_amount, now, auths) == Err::<(), Error>(
            Error::ClaimExceedsCoverage,
        ),
        submit_claim_next(s, policy_id, claim_amount, reason, now, auths) == s,
{
}

/// A claim filed before the window opens or after it closes is refused
/// with `OutsideCoverageWindow`, and the collections are left unchanged.
pub proof fn lemma_claim_outside_window_rejected(
    s: StateModel,
    policy_id: u64,
    claim_amount: i128,
    reason: Seq<char>,
    now: u64,
    auths: Seq<AccountId>,
)
    requires
        s.config is Some,
        policy_id < s.policies.len(),
        s.policies[policy_id as int].is_active,
        !s.policies[policy_id as int].is_claimed,
        now < s.policies[policy_id as int].start_date || now > s.policies[
            policy_id as int
        ].end_date,
    ensures
        submit_claim_outcome(s, policy_id, claim_amount, now, auths) == Err::<(), Error>(
            Error::OutsideCoverageWindow,
        ),
        submit_claim_next(s, policy_id, claim_amount, reason, now, auths) == s,
{
}

/// Approving the same claim a second time fails with
/// `ClaimAlreadyApproved` and changes nothing, however the second call
/// is authorized — so the payout is decided at most once per claim.
pub proof fn lemma_approve_claim_twice(
    s: StateModel,
    claim_id: u64,
    auths1: Seq<AccountId>,
    auths2: Seq<AccountId>,
)
    requires
        inv(s),
        approve_claim_outcome(s, claim_id, auths1) is Ok,
        auths2.contains(s.config->Some_0.admin),
    ensures
        ({
            let s2 = approve_claim_next(s, claim_id, auths1);
            &&& approve_claim_outcome(s2, claim_id, auths2) == Err::<Payment, Error>(
                Error::ClaimAlreadyApproved,
            )
            &&& approve_claim_next(s2, claim_id, auths2) == s2
        }),
{
}

/// After a successful approval the policy is closed and marked
/// claimed, the claim is approved, and the payout moves exactly the
/// claimed amount from the custodian to the policy's holder.
pub proof fn lemma_approve_claim_closes_policy(s: StateModel, claim_id: u64, auths: Seq<AccountId>)
    requires
        inv(s),
        approve_claim_outcome(s, claim_id, auths) is Ok,
    ensures
        ({
            let s2 = approve_claim_next(s, claim_id, auths);
            let pid = s.claims[claim_id as int].policy_id as int;
            &&& !s2.policies[pid].is_active
            &&& s2.policies[pid].is_claimed
            &&& s2.claims[claim_id as int].is_approved
            &&& approve_claim_outcome(s, claim_id, auths) == Ok::<Payment, Error>(
                Payment {
                    from: Party::Custodian,
                    to: Party::Account(s.policies[pid].policy_holder),
                    amount: s.claims[claim_id as int].claim_amount,
                },
            )
        }),
{
    let cid = claim_id as int;
    assert(claim_wf(s, s.claims[cid]));
}

/// A policy written by `create_policy` reads back under its id with
/// exactly the field values that were written.
pub proof fn lemma_policy_round_trip(
    s: StateModel,
    policy_holder: AccountId,
    coverage_amount: i128,
    duration_in_days: u64,
    clause: Seq<char>,
    now: u64,
    auths: Seq<AccountId>,
)
    requires
        inv(s),
        s.policies.len() <= u64::MAX,
        create_policy_outcome(s, policy_holder, coverage_amount, duration_in_days, now, auths)
            is Ok,
    ensures
        get_policy_outcome(
            create_policy_next(
                s,
                policy_holder,
                coverage_amount,
                duration_in_days,
                clause,
                now,
                auths,
            ),
            s.policies.len() as u64,
        ) == Ok::<PolicyModel, Error>(
            PolicyModel {
                id: s.policies.len() as u64,
                policy_holder,
                premium: premium_of(coverage_amount as int, duration_in_days as int) as i128,
                coverage_amount,
                start_date: now,
                end_date: (now + duration_in_days * 86400) as u64,
                is_active: true,
                is_claimed: false,
                clause,
            },
        ),
{
}

/// A claim written by `submit_claim` reads back under its id with
/// exactly the field values that were written: the given policy id,
/// amount and justification, the holder copied from the policy, and
/// pending.
pub proof fn lemma_claim_round_trip(
    s: StateModel,
    policy_id: u64,
    claim_amount: i128,
    reason: Seq<char>,
    now: u64,
    auths: Seq<AccountId>,
)
    requires
        inv(s),
        s.claims.len() <= u64::MAX,
        submit_claim_outcome(s, policy_id, claim_amount, now, auths) is Ok,
    ensures
        get_claim_outcome(
            submit_claim_next(s, policy_id, claim_amount, reason, now, auths),
            s.claims.len() as u64,
        ) == Ok::<ClaimModel, Error>(
            ClaimModel {
                policy_id,
                policy_holder: s.policies[policy_id as int].policy_holder,
                claim_amount,
                reason,
                is_approved: false,
            },
        ),
{
}

/// Without the holder's authorization, `create_policy` fails with
/// `Unauthorized` and changes nothing, whatever else is in order.
pub proof fn lemma_create_policy_needs_holder_auth(
    s: StateModel,
    policy_holder: AccountId,
    coverage_amount: i128,
    duration_in_days: u64,
    clause: Seq<char>,
    now: u64,
    auths: Seq<AccountId>,
)
    requires
        s.config is Some,
        premium_inputs_ok(coverage_amount as int, duration_in_days as int),
        now + duration_in_days * 86400 <= u64::MAX,
        !auths.contains(policy_holder),
    ensures
        create_policy_outcome(s, policy_holder, coverage_amount, duration_in_days, now, auths)
            == Err::<Payment, Error>(Error::Unauthorized),
        create_policy_next(s, policy_holder, coverage_amount, duration_in_days, clause, now, auths)
            == s,
{
}

/// Without the policy holder's authorization, `submit_claim` fails
/// with `Unauthorized` and changes nothing, however valid the claim.
pub proof fn lemma_submit_claim_needs_holder_auth(
    s: StateModel,
    policy_id: u64,
    claim_amount: i128,
    reason: Seq<char>,
    now: u64,
    auths: Seq<AccountId>,
)
    requires
        s.config is Some,
        policy_id < s.policies.len(),
        s.policies[policy_id as int].is_active,
        !s.policies[policy_id as int].is_claimed,
        s.policies[policy_id as int].start_date <= now <= s.policies[policy_id as int].end_date,
        0 < claim_amount <= s.policies[policy_id as int].coverage_amount,
        !auths.contains(s.policies[policy_id as int].policy_holder),
    ensures
        submit_claim_outcome(s, policy_id, claim_amount, now, auths) == Err::<(), Error>(
            Error::Unauthorized,
        ),
        submit_claim_next(s, policy_id, claim_amount, reason, now, auths) == s,
{
}

/// Without the administrator's authorization, `approve_claim` fails
/// with `Unauthorized` and changes nothing, regardless of the claim's
/// validity — the claim need not even exist.
pub proof fn lemma_approve_claim_needs_admin_auth(
    s: StateModel,
    claim_id: u64,
    auths: Seq<AccountId>,
)
    requires
        s.config is Some,
        !auths.contains(s.config->Some_0.admin),
    ensures
        approve_claim_outcome(s, claim_id, auths) == Err::<Payment, Error>(Error::Unauthorized),
        approve_claim_next(s, claim_id, auths) == s,
{
}

} // verus!
