use insurance::errors::Error;
use insurance::machine::Insurance;
use insurance::types::{Party, Payment};

const TOKEN: u64 = 7;
const ADMIN: u64 = 1;
const HOLDER: u64 = 2;

/// 30 days of coverage opened at second 1000 closes at second 2_593_000.
const START: u64 = 1000;
const END: u64 = START + 30 * 86400;

fn initialized_ledger() -> Insurance {
    let mut s = Insurance::new();
    s.initialize(TOKEN, ADMIN).unwrap();
    s
}

/// An initialized ledger holding one policy: holder 2, coverage 10000
/// over 30 days, window [1000, 2_593_000], premium 83 escrowed.
fn ledger_with_policy() -> Insurance {
    let mut s = initialized_ledger();
    let pay = s
        .create_policy(HOLDER, 10000, 30, "storm damage".to_string(), START, &[HOLDER])
        .unwrap();
    assert_eq!(pay.amount, 83);
    s
}

#[test]
fn test_calculate_premium() {
    let premium = Insurance::calculate_premium(10000, 30).unwrap();
    assert_eq!(premium, 83);
}

#[test]
fn test() {
    let words = Insurance::hello("Dev".to_string());
    assert_eq!(words, vec!["Hello".to_string(), "Dev".to_string()]);
}

#[test]
fn premium_stays_within_coverage() {
    for &(c, d) in &[(10000i128, 30u64), (1, 1), (3650, 365), (99, 10000), (1_000_000, 1)] {
        let p = Insurance::calculate_premium(c, d).unwrap();
        assert!(0 <= p && p <= c, "premium {p} for coverage {c} over {d} days");
    }
    assert_eq!(Insurance::calculate_premium(10000, 30), Ok(83));
    // One tenth of the coverage over a full year, the clamp idle.
    assert_eq!(Insurance::calculate_premium(3650, 365), Ok(365));
    // The clamp: a long duration cannot push the premium past the coverage.
    assert_eq!(Insurance::calculate_premium(99, 10000), Ok(99));
}

#[test]
fn premium_rejects_degenerate_inputs() {
    assert_eq!(Insurance::calculate_premium(0, 30), Err(Error::InvalidInput));
    assert_eq!(Insurance::calculate_premium(10000, 0), Err(Error::InvalidInput));
    assert_eq!(Insurance::calculate_premium(-5, 30), Err(Error::InvalidInput));
    assert_eq!(Insurance::calculate_premium(0, 0), Err(Error::InvalidInput));
}

#[test]
fn premium_rejects_overflowing_product() {
    assert_eq!(Insurance::calculate_premium(i128::MAX, 2), Err(Error::InvalidInput));
    assert_eq!(Insurance::calculate_premium(i128::MAX, u64::MAX), Err(Error::InvalidInput));
}

#[test]
fn initialize_only_once() {
    let mut s = Insurance::new();
    assert_eq!(s.initialize(TOKEN, ADMIN), Ok(()));
    assert_eq!(s.initialize(TOKEN, ADMIN), Err(Error::AlreadyInitialized));
    assert_eq!(s.initialize(9, 9), Err(Error::AlreadyInitialized));
}

#[test]
fn operations_refused_before_initialization() {
    let mut s = Insurance::new();
    assert_eq!(
        s.create_policy(HOLDER, 10000, 30, "storm".to_string(), START, &[HOLDER]),
        Err(Error::NotInitialized)
    );
    assert_eq!(
        s.submit_claim(0, 100, "hail".to_string(), START, &[HOLDER]),
        Err(Error::NotInitialized)
    );
    assert_eq!(s.approve_claim(0, &[ADMIN]), Err(Error::NotInitialized));
}

#[test]
fn create_policy_escrows_premium_and_numbers_policies() {
    let mut s = initialized_ledger();
    let pay = s
        .create_policy(HOLDER, 10000, 30, "storm damage".to_string(), START, &[HOLDER])
        .unwrap();
    assert_eq!(
        pay,
        Payment { from: Party::Account(HOLDER), to: Party::Custodian, amount: 83 }
    );
    assert_eq!(s.policy_count(), 1);
    assert_eq!(s.get_policy(0).unwrap().id, 0);

    let pay2 = s
        .create_policy(5, 20000, 60, "flood damage".to_string(), START, &[5])
        .unwrap();
    assert_eq!(pay2.from, Party::Account(5));
    assert_eq!(s.policy_count(), 2);
    assert_eq!(s.get_policy(1).unwrap().id, 1);
}

#[test]
fn policy_reads_back_as_written() {
    let s = ledger_with_policy();
    let p = s.get_policy(0).unwrap();
    assert_eq!(p.id, 0);
    assert_eq!(p.policy_holder, HOLDER);
    assert_eq!(p.premium, 83);
    assert_eq!(p.coverage_amount, 10000);
    assert_eq!(p.start_date, START);
    assert_eq!(p.end_date, END);
    assert!(p.is_active);
    assert!(!p.is_claimed);
    assert_eq!(p.clause, "storm damage");
}

#[test]
fn create_policy_rejects_overflowing_dates() {
    let mut s = initialized_ledger();
    assert_eq!(
        s.create_policy(HOLDER, 10000, 30, "storm".to_string(), u64::MAX, &[HOLDER]),
        Err(Error::InvalidInput)
    );
    assert_eq!(s.policy_count(), 0);
}

#[test]
fn create_policy_needs_holder_authorization() {
    let mut s = initialized_ledger();
    assert_eq!(
        s.create_policy(HOLDER, 10000, 30, "storm".to_string(), START, &[ADMIN]),
        Err(Error::Unauthorized)
    );
    assert_eq!(
        s.create_policy(HOLDER, 10000, 30, "storm".to_string(), START, &[]),
        Err(Error::Unauthorized)
    );
    assert_eq!(s.policy_count(), 0);
}

#[test]
fn claim_reads_back_as_written() {
    let mut s = ledger_with_policy();
    assert_eq!(s.submit_claim(0, 5000, "hailstorm".to_string(), START + 5, &[HOLDER]), Ok(()));
    assert_eq!(s.claim_count(), 1);
    let c = s.get_claim(0).unwrap();
    assert_eq!(c.policy_id, 0);
    assert_eq!(c.policy_holder, HOLDER);
    assert_eq!(c.claim_amount, 5000);
    assert_eq!(c.reason, "hailstorm");
    assert!(!c.is_approved);
}

#[test]
fn oversized_claim_rejected_and_nothing_changes() {
    let mut s = ledger_with_policy();
    let before = s.get_policy(0).unwrap().clone();
    assert_eq!(
        s.submit_claim(0, 10001, "hail".to_string(), START + 5, &[HOLDER]),
        Err(Error::ClaimExceedsCoverage)
    );
    assert_eq!(s.claim_count(), 0);
    assert_eq!(s.policy_count(), 1);
    assert_eq!(*s.get_policy(0).unwrap(), before);
}

#[test]
fn non_positive_claim_rejected() {
    let mut s = ledger_with_policy();
    assert_eq!(
        s.submit_claim(0, 0, "hail".to_string(), START + 5, &[HOLDER]),
        Err(Error::ClaimExceedsCoverage)
    );
    assert_eq!(
        s.submit_claim(0, -10, "hail".to_string(), START + 5, &[HOLDER]),
        Err(Error::ClaimExceedsCoverage)
    );
    assert_eq!(s.claim_count(), 0);
}

#[test]
fn claim_outside_window_rejected() {
    let mut s = ledger_with_policy();
    assert_eq!(
        s.submit_claim(0, 5000, "hail".to_string(), START - 1, &[HOLDER]),
        Err(Error::OutsideCoverageWindow)
    );
    assert_eq!(
        s.submit_claim(0, 5000, "hail".to_string(), END + 1, &[HOLDER]),
        Err(Error::OutsideCoverageWindow)
    );
    // The window is closed on both ends.
    assert_eq!(s.submit_claim(0, 5000, "hail".to_string(), START, &[HOLDER]), Ok(()));
    assert_eq!(s.submit_claim(0, 5000, "hail".to_string(), END, &[HOLDER]), Ok(()));
    assert_eq!(s.claim_count(), 2);
}

#[test]
fn claim_against_unknown_policy_rejected() {
    let mut s = ledger_with_policy();
    assert_eq!(
        s.submit_claim(1, 5000, "hail".to_string(), START + 5, &[HOLDER]),
        Err(Error::NotFound)
    );
    assert_eq!(s.claim_count(), 0);
}

#[test]
fn submit_claim_needs_holder_authorization() {
    let mut s = ledger_with_policy();
    assert_eq!(
        s.submit_claim(0, 5000, "hail".to_string(), START + 5, &[ADMIN]),
        Err(Error::Unauthorized)
    );
    assert_eq!(s.claim_count(), 0);
}

#[test]
fn approval_pays_the_claim_and_closes_the_policy() {
    let mut s = ledger_with_policy();
    s.submit_claim(0, 5000, "hail".to_string(), START + 5, &[HOLDER]).unwrap();
    let pay = s.approve_claim(0, &[ADMIN]).unwrap();
    assert_eq!(
        pay,
        Payment { from: Party::Custodian, to: Party::Account(HOLDER), amount: 5000 }
    );
    let p = s.get_policy(0).unwrap();
    assert!(!p.is_active);
    assert!(p.is_claimed);
    assert!(s.get_claim(0).unwrap().is_approved);
}

#[test]
fn approving_twice_rejected() {
    let mut s = ledger_with_policy();
    s.submit_claim(0, 5000, "hail".to_string(), START + 5, &[HOLDER]).unwrap();
    assert!(s.approve_claim(0, &[ADMIN]).is_ok());
    // The second call fails and nothing moves again.
    assert_eq!(s.approve_claim(0, &[ADMIN]), Err(Error::ClaimAlreadyApproved));
    assert!(s.get_claim(0).unwrap().is_approved);
    assert_eq!(s.policy_count(), 1);
    assert_eq!(s.claim_count(), 1);
}

#[test]
fn approval_needs_admin_authorization() {
    let mut s = ledger_with_policy();
    s.submit_claim(0, 5000, "hail".to_string(), START + 5, &[HOLDER]).unwrap();
    assert_eq!(s.approve_claim(0, &[HOLDER]), Err(Error::Unauthorized));
    assert_eq!(s.approve_claim(0, &[]), Err(Error::Unauthorized));
    assert!(!s.get_claim(0).unwrap().is_approved);
}

#[test]
fn approving_unknown_claim_rejected() {
    let mut s = ledger_with_policy();
    assert_eq!(s.approve_claim(0, &[ADMIN]), Err(Error::NotFound));
}

#[test]
fn second_claim_on_claimed_policy_rejected() {
    let mut s = ledger_with_policy();
    s.submit_claim(0, 5000, "hail".to_string(), START + 5, &[HOLDER]).unwrap();
    s.submit_claim(0, 2000, "wind".to_string(), START + 6, &[HOLDER]).unwrap();
    s.approve_claim(0, &[ADMIN]).unwrap();
    // The policy is claimed, so the still-pending second claim can
    // never be approved.
    assert_eq!(s.approve_claim(1, &[ADMIN]), Err(Error::PolicyAlreadyClaimed));
    assert!(!s.get_claim(1).unwrap().is_approved);
}

#[test]
fn claim_against_inactive_policy_rejected() {
    let mut s = ledger_with_policy();
    s.submit_claim(0, 5000, "hail".to_string(), START + 5, &[HOLDER]).unwrap();
    s.approve_claim(0, &[ADMIN]).unwrap();
    assert_eq!(
        s.submit_claim(0, 100, "more hail".to_string(), START + 7, &[HOLDER]),
        Err(Error::PolicyInactive)
    );
    assert_eq!(s.claim_count(), 1);
}
