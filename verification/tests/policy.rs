use solana_program::native_token::sol_to_lamports;
use tx_delivery::policy::{
    check_balance, fee_source, resolve_priority_fee, ComputeBudget, FeeSource, MAX_COMPUTE_UNITS,
    MIN_BALANCE_LAMPORTS,
};
use tx_delivery::status::{
    classify_response, classify_status, ConfirmationLevel, ConfirmationOutcome, StatusReport,
};

#[test]
fn dynamic_budget_is_the_fixed_ceiling() {
    assert_eq!(MAX_COMPUTE_UNITS, 1_400_000);
    assert_eq!(ComputeBudget::Dynamic.resolve(), 1_400_000);
}

#[test]
fn fixed_budget_is_the_given_limit() {
    assert_eq!(ComputeBudget::Fixed(0).resolve(), 0);
    assert_eq!(ComputeBudget::Fixed(200_000).resolve(), 200_000);
    assert_eq!(ComputeBudget::Fixed(u32::MAX).resolve(), u32::MAX);
}

#[test]
fn minimum_balance_is_five_thousandths_of_a_sol() {
    assert_eq!(MIN_BALANCE_LAMPORTS, 5_000_000);
    assert_eq!(MIN_BALANCE_LAMPORTS, sol_to_lamports(0.005));
}

#[test]
fn balance_guard_at_the_threshold() {
    assert!(!check_balance(Some(0), MIN_BALANCE_LAMPORTS));
    assert!(!check_balance(Some(4_999_999), MIN_BALANCE_LAMPORTS));
    assert!(!check_balance(Some(5_000_000), MIN_BALANCE_LAMPORTS));
    assert!(check_balance(Some(5_000_001), MIN_BALANCE_LAMPORTS));
    assert!(check_balance(Some(u64::MAX), MIN_BALANCE_LAMPORTS));
    assert!(check_balance(None, MIN_BALANCE_LAMPORTS));
    assert!(!check_balance(Some(u64::MAX), u64::MAX));
}

#[test]
fn fee_source_follows_the_configuration() {
    assert_eq!(fee_source(true, None), FeeSource::Oracle);
    assert_eq!(fee_source(true, Some(5)), FeeSource::Oracle);
    assert_eq!(fee_source(false, Some(5)), FeeSource::Static(5));
    assert_eq!(fee_source(false, None), FeeSource::Static(0));
}

#[test]
fn priority_fee_resolution() {
    assert_eq!(resolve_priority_fee(true, Some(5), 900), 900);
    assert_eq!(resolve_priority_fee(true, None, 0), 0);
    assert_eq!(resolve_priority_fee(false, Some(5), 900), 5);
    assert_eq!(resolve_priority_fee(false, None, 900), 0);
}

#[test]
fn single_status_classification() {
    let report = |err: Option<&str>, confirmation| {
        Some(StatusReport { err: err.map(|text| text.to_string()), confirmation })
    };
    assert_eq!(classify_status(&None), ConfirmationOutcome::Unknown);
    assert_eq!(classify_status(&report(None, None)), ConfirmationOutcome::Unknown);
    assert_eq!(
        classify_status(&report(None, Some(ConfirmationLevel::Processed))),
        ConfirmationOutcome::Processed
    );
    assert_eq!(
        classify_status(&report(None, Some(ConfirmationLevel::Confirmed))),
        ConfirmationOutcome::Confirmed
    );
    assert_eq!(
        classify_status(&report(None, Some(ConfirmationLevel::Finalized))),
        ConfirmationOutcome::Finalized
    );
    assert_eq!(
        classify_status(&report(Some("boom"), Some(ConfirmationLevel::Confirmed))),
        ConfirmationOutcome::OnChainError("boom".to_string())
    );
}

#[test]
fn only_errors_and_settled_levels_are_terminal() {
    assert!(!ConfirmationOutcome::Unknown.terminal());
    assert!(!ConfirmationOutcome::Processed.terminal());
    assert!(ConfirmationOutcome::Confirmed.terminal());
    assert!(ConfirmationOutcome::Finalized.terminal());
    assert!(ConfirmationOutcome::OnChainError(String::new()).terminal());
}

#[test]
fn response_classification_takes_the_first_terminal_entry() {
    let processed = || Some(StatusReport { err: None, confirmation: Some(ConfirmationLevel::Processed) });
    let confirmed = || Some(StatusReport { err: None, confirmation: Some(ConfirmationLevel::Confirmed) });
    let failed = || Some(StatusReport { err: Some("late".to_string()), confirmation: None });
    assert_eq!(classify_response(&vec![]), ConfirmationOutcome::Unknown);
    assert_eq!(classify_response(&vec![None, None]), ConfirmationOutcome::Unknown);
    assert_eq!(classify_response(&vec![processed(), None]), ConfirmationOutcome::Unknown);
    assert_eq!(
        classify_response(&vec![processed(), confirmed(), failed()]),
        ConfirmationOutcome::Confirmed
    );
    assert_eq!(
        classify_response(&vec![None, failed(), confirmed()]),
        ConfirmationOutcome::OnChainError("late".to_string())
    );
}
