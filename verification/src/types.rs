//! Entity records of the ledger and their mathematical models.
//!
//! Principals (policy holders, the administrator, the token contract)
//! are carried as plain numeric identities: the host resolves whatever
//! identity scheme it uses to these before calling in. Free text
//! (coverage clauses, claim justifications) is carried as `String` and
//! modelled as a sequence of characters.

use vstd::prelude::*;

verus! {

/// A principal's identity, as the host numbers it.
pub type AccountId = u64;

/// The two immutable globals set at initialization.
#[derive(Clone, Copy, Debug, PartialEq, Eq, Structural)]
pub struct Config {
    /// The identifier of the one asset premiums and payouts move in.
    pub token: AccountId,
    /// The one administrator, the only principal that may approve claims.
    pub admin: AccountId,
}

/// A party of an asset movement: a named principal, or the ledger's own
/// custodial principal that escrowed premiums sit with.
#[derive(Clone, Copy, Debug, PartialEq, Eq, Structural)]
pub enum Party {
    Custodian,
    Account(AccountId),
}

/// An asset movement the ledger decided on. The host's transfer rail
/// must execute it atomically with the operation that returned it.
#[derive(Clone, Copy, Debug, PartialEq, Eq, Structural)]
pub struct Payment {
    pub from: Party,
    pub to: Party,
    pub amount: i128,
}

/// A coverage policy.
#[derive(Clone, Debug, PartialEq, Eq)]
pub struct Policy {
    /// Unique, assigned 0, 1, 2, ... in order of creation.
    pub id: u64,
    /// The principal that owns the policy and may file claims against it.
    pub policy_holder: AccountId,
    /// The amount escrowed at issuance; never mutated afterwards.
    pub premium: i128,
    /// The most a claim against this policy may pay; fixed at creation.
    pub coverage_amount: i128,
    /// Start of the claim window (seconds).
    pub start_date: u64,
    /// End of the claim window (seconds); the window is closed on both ends.
    pub end_date: u64,
    /// True from creation until a claim against the policy is approved.
    pub is_active: bool,
    /// True once a claim against the policy has been approved.
    pub is_claimed: bool,
    /// Free-text coverage description, immutable.
    pub clause: String,
}

/// A claim filed against a policy.
#[derive(Clone, Debug, PartialEq, Eq)]
pub struct Claim {
    /// The policy the claim is filed against.
    pub policy_id: u64,
    /// Copied from the referenced policy at submission time.
    pub policy_holder: AccountId,
    /// The amount asked for; in `(0, coverage_amount]` at submission time.
    pub claim_amount: i128,
    /// Free-text justification, immutable.
    pub reason: String,
    /// False at creation; set true exactly once, by approval.
    pub is_approved: bool,
}

/// The model of a [`Policy`]: the same fields, text as a character sequence.
pub ghost struct PolicyModel {
    pub id: u64,
    pub policy_holder: AccountId,
    pub premium: i128,
    pub coverage_amount: i128,
    pub start_date: u64,
    pub end_date: u64,
    pub is_active: bool,
    pub is_claimed: bool,
    pub clause: Seq<char>,
}

/// The model of a [`Claim`].
pub ghost struct ClaimModel {
    pub policy_id: u64,
    pub policy_holder: AccountId,
    pub claim_amount: i128,
    pub reason: Seq<char>,
    pub is_approved: bool,
}

impl View for Policy {
    type V = PolicyModel;

    open spec fn view(&self) -> PolicyModel {
        PolicyModel {
            id: self.id,
            policy_holder: self.policy_holder,
            premium: self.premium,
            coverage_amount: self.coverage_amount,
            start_date: self.start_date,
            end_date: self.end_date,
            is_active: self.is_active,
            is_claimed: self.is_claimed,
            clause: self.clause@,
        }
    }
}

impl View for Claim {
    type V = ClaimModel;

    open spec fn view(&self) -> ClaimModel {
        ClaimModel {
            policy_id: self.policy_id,
            policy_holder: self.policy_holder,
            claim_amount: self.claim_amount,
            reason: self.reason@,
            is_approved: self.is_approved,
        }
    }
}

} // verus!
