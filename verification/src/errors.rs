//! The error taxonomy of the ledger. Every failed operation aborts with
//! one of these named values and leaves the state untouched.

use vstd::prelude::*;

verus! {

/// Why an operation was refused. Each operation's contract states, over
/// the prior state and the inputs, exactly which of these it returns.
#[derive(Clone, Copy, Debug, PartialEq, Eq, Structural)]
pub enum Error {
    /// Premium inputs out of range: non-positive coverage, a zero
    /// duration, or figures too large for the fixed-width arithmetic.
    InvalidInput,
    /// An operation other than `initialize` ran before `initialize`.
    NotInitialized,
    /// `initialize` ran a second time.
    AlreadyInitialized,
    /// The principal the operation requires did not authorize it.
    Unauthorized,
    /// No policy or claim exists under the given id.
    NotFound,
    /// The policy a claim is filed against is no longer active.
    PolicyInactive,
    /// The policy already has an approved claim against it.
    PolicyAlreadyClaimed,
    /// The clock reading lies outside the policy's coverage window.
    OutsideCoverageWindow,
    /// The claim amount is not in `(0, coverage_amount]`.
    ClaimExceedsCoverage,
    /// The claim was already approved once.
    ClaimAlreadyApproved,
}

} // verus!
