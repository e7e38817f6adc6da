use solver_core::error::SolverError;
use solver_core::executor::{
    contains_non_retryable_marker, is_non_retryable_error, simulation_outcome, simulation_rpc_failure,
    RetryState, RetryStep, BASE_RETRY_DELAY_MS, MAX_RETRIES,
};

fn detail(e: &SolverError) -> String {
    match e {
        SolverError::TransactionExecutionFailed(m) => m.clone(),
        other => panic!("unexpected error {:?}", other),
    }
}

#[test]
fn non_retryable_errors_are_recognised_in_any_case() {
    assert!(is_non_retryable_error("Invalid Signature provided"));
    assert!(is_non_retryable_error("Transaction SIMULATION FAILED: Error processing Instruction 2"));
    assert!(is_non_retryable_error("transaction signature verification failure"));
    assert!(is_non_retryable_error("RPC error: Account not found"));
    assert!(is_non_retryable_error("Insufficient Funds for fee"));
    assert!(!is_non_retryable_error("blockhash not found"));
    assert!(!is_non_retryable_error("connection reset by peer"));
    assert!(!is_non_retryable_error(""));
}

#[test]
fn marker_search_is_exact_on_lowercase_text() {
    assert!(contains_non_retryable_marker("xx account not found yy"));
    assert!(!contains_non_retryable_marker("Account not found"));
    assert!(!contains_non_retryable_marker("account not foun"));
}

#[test]
fn retry_schedule_backs_off_exponentially_then_gives_up() {
    let mut state = RetryState::new();
    let mut delays = Vec::new();
    loop {
        match state.next_step() {
            RetryStep::Send { delay_ms } => {
                delays.push(delay_ms);
                assert!(state.record_failure("node is behind").is_none());
            }
            RetryStep::GiveUp(e) => {
                assert_eq!(detail(&e), "Transaction failed after 3 retries: node is behind");
                assert_eq!(
                    e.message(),
                    "Transaction execution failed: Transaction failed after 3 retries: node is behind"
                );
                break;
            }
        }
    }
    assert_eq!(delays, vec![0, 1000, 2000, 4000]);
    assert_eq!(delays.len() as u32, MAX_RETRIES + 1);
    assert_eq!(delays[1], BASE_RETRY_DELAY_MS);
}

#[test]
fn last_failure_is_reported() {
    let mut state = RetryState::new();
    for msg in ["first", "second", "third", "fourth"] {
        assert!(matches!(state.next_step(), RetryStep::Send { .. }));
        assert!(state.record_failure(msg).is_none());
    }
    match state.next_step() {
        RetryStep::GiveUp(e) => assert_eq!(detail(&e), "Transaction failed after 3 retries: fourth"),
        other => panic!("expected to give up, got {:?}", other),
    }
}

#[test]
fn permanent_error_stops_at_once() {
    let mut state = RetryState::new();
    assert!(state.record_failure("timeout").is_none());
    match state.next_step() {
        RetryStep::Send { delay_ms } => assert_eq!(delay_ms, 1000),
        other => panic!("expected a retry, got {:?}", other),
    }
    let fatal = state.record_failure("Insufficient funds for rent").expect("permanent error");
    assert_eq!(detail(&fatal), "Transaction failed (non-retryable): Insufficient funds for rent");
}

#[test]
fn simulation_reply_is_read() {
    let ok = simulation_outcome(Some(1400), None);
    assert!(ok.success);
    assert_eq!(ok.units_consumed, 1400);
    assert_eq!(ok.error, None);
    let bad = simulation_outcome(None, Some("InstructionError(0, Custom(1))".to_string()));
    assert!(!bad.success);
    assert_eq!(bad.units_consumed, 0);
    assert_eq!(bad.error.as_deref(), Some("InstructionError(0, Custom(1))"));
}

#[test]
fn simulation_rpc_failure_message() {
    let e = simulation_rpc_failure("timed out");
    assert_eq!(detail(&e), "Simulation RPC call failed: timed out");
    assert_eq!(e.message(), "Transaction execution failed: Simulation RPC call failed: timed out");
}

#[test]
fn solver_error_messages() {
    assert_eq!(SolverError::RequestFailed("dns".to_string()).message(), "Reqwest failed: dns");
    assert_eq!(
        SolverError::ApiError("429".to_string()).message(),
        "API returned a non-success status: 429"
    );
}
