use base64::Engine;
use solana_sdk::transaction::VersionedTransaction;
use solver_core::error::SolverError;
use solver_core::executor::simulation_outcome;
use solver_core::fee_estimator::FeeLevel;
use solver_core::service::{
    check_simulation, check_solve_request, solve_failure, transaction_from_quote, ExecuteAction, ExecuteEvent,
    ExecuteFlow, STATUS_BAD_REQUEST, STATUS_INTERNAL_ERROR,
};
use solver_core::swapper::{JupiterOrderResponse, SwapIntent};

fn intent(input: &str, output: &str, amount: u64, taker: &str) -> SwapIntent {
    SwapIntent {
        input_mint: input.to_string(),
        output_mint: output.to_string(),
        amount,
        taker: taker.to_string(),
    }
}

fn encoded_transaction() -> String {
    let tx = VersionedTransaction::default();
    let bytes = bincode::serialize(&tx).unwrap();
    base64::engine::general_purpose::STANDARD.encode(bytes)
}

fn quote(transaction: Option<String>, error_message: Option<&str>) -> JupiterOrderResponse {
    JupiterOrderResponse {
        in_amount: "100000000".to_string(),
        out_amount: "14612345".to_string(),
        transaction,
        error_message: error_message.map(|s| s.to_string()),
    }
}

#[test]
fn test_solve_validation_empty_input_mint() {
    let req = intent(
        "",
        "EPjFWdd5AufqSSqeM2qN1xzybapC8G4wEGGkZwyTDt1v",
        100000000,
        "jdocuPgEAjMfihABsPgKEvYtsmMzjUHeq9LX4Hvs7f3",
    );
    let rej = check_solve_request(&req).unwrap_err();
    assert_eq!(rej.status, STATUS_BAD_REQUEST);
    assert_eq!(rej.status, 400);
}

#[test]
fn test_solve_validation_same_tokens() {
    let req = intent(
        "So11111111111111111111111111111111111111112",
        "So11111111111111111111111111111111111111112",
        100000000,
        "jdocuPgEAjMfihABsPgKEvYtsmMzjUHeq9LX4Hvs7f3",
    );
    let rej = check_solve_request(&req).unwrap_err();
    assert_eq!(rej.status, 400);
}

#[test]
fn test_solve_validation_zero_amount() {
    let req = intent(
        "So11111111111111111111111111111111111111112",
        "EPjFWdd5AufqSSqeM2qN1xzybapC8G4wEGGkZwyTDt1v",
        0,
        "jdocuPgEAjMfihABsPgKEvYtsmMzjUHeq9LX4Hvs7f3",
    );
    let rej = check_solve_request(&req).unwrap_err();
    assert_eq!(rej.status, 400);
}

#[test]
fn test_solve_validation_invalid_taker() {
    let req = intent(
        "So11111111111111111111111111111111111111112",
        "EPjFWdd5AufqSSqeM2qN1xzybapC8G4wEGGkZwyTDt1v",
        100000000,
        "short",
    );
    let rej = check_solve_request(&req).unwrap_err();
    assert_eq!(rej.status, 400);
    assert_eq!(rej.message, "taker must be a valid Solana public key");
}

#[test]
fn valid_solve_request_is_accepted() {
    let req = intent(
        "So11111111111111111111111111111111111111112",
        "EPjFWdd5AufqSSqeM2qN1xzybapC8G4wEGGkZwyTDt1v",
        100000000,
        "jdocuPgEAjMfihABsPgKEvYtsmMzjUHeq9LX4Hvs7f3",
    );
    assert!(check_solve_request(&req).is_ok());
    let rej = solve_failure("connection refused");
    assert_eq!(rej.status, STATUS_INTERNAL_ERROR);
    assert_eq!(rej.message, "Failed to get order from Jupiter: connection refused");
}

#[test]
fn quote_problems_are_refused() {
    let e = transaction_from_quote(&quote(Some(encoded_transaction()), Some("Insufficient funds"))).unwrap_err();
    assert_eq!((e.status, e.message.as_str()), (400, "Jupiter returned error: Insufficient funds"));
    let e = transaction_from_quote(&quote(None, None)).unwrap_err();
    assert_eq!((e.status, e.message.as_str()), (400, "Quote did not include a transaction"));
    let e = transaction_from_quote(&quote(Some("not base64!".to_string()), None)).unwrap_err();
    assert_eq!(e.status, 500);
    assert!(e.message.starts_with("Failed to decode transaction: "));
    let junk = base64::engine::general_purpose::STANDARD.encode([1u8, 2, 3]);
    let e = transaction_from_quote(&quote(Some(junk), None)).unwrap_err();
    assert_eq!(e.status, 500);
    assert!(e.message.starts_with("Failed to deserialize transaction: "));
}

#[test]
fn good_quote_yields_its_transaction() {
    let tx = transaction_from_quote(&quote(Some(encoded_transaction()), None)).unwrap();
    assert_eq!(tx, VersionedTransaction::default());
}

#[test]
fn failed_simulation_is_refused() {
    assert!(check_simulation(&simulation_outcome(Some(5), None)).is_ok());
    let e = check_simulation(&simulation_outcome(Some(5), Some("AccountNotFound".to_string()))).unwrap_err();
    assert_eq!((e.status, e.message.as_str()), (400, "Transaction simulation failed: AccountNotFound"));
}

#[test]
fn execute_flow_happy_path() {
    let req = intent(
        "So11111111111111111111111111111111111111112",
        "EPjFWdd5AufqSSqeM2qN1xzybapC8G4wEGGkZwyTDt1v",
        100000000,
        "jdocuPgEAjMfihABsPgKEvYtsmMzjUHeq9LX4Hvs7f3",
    );
    let (mut flow, action) = ExecuteFlow::start(&req);
    assert!(matches!(action, ExecuteAction::RequestQuote));
    assert!(flow.transaction().is_none());
    let action = flow.step(ExecuteEvent::QuoteReceived(quote(Some(encoded_transaction()), None)));
    assert!(matches!(action, ExecuteAction::Simulate));
    assert_eq!(flow.transaction(), Some(&VersionedTransaction::default()));
    let action = flow.step(ExecuteEvent::SimulationFinished(simulation_outcome(Some(42000), None)));
    assert!(matches!(action, ExecuteAction::Execute { fee_level: FeeLevel::High }));
    assert_eq!(flow.transaction(), Some(&VersionedTransaction::default()));
    let action = flow.step(ExecuteEvent::Executed {
        signature: "5sig".to_string(),
        priority_fee: 80,
        elapsed_ms: 1234,
    });
    match action {
        ExecuteAction::Respond(r) => {
            assert_eq!(r.signature, "5sig");
            assert_eq!(r.priority_fee, 80);
            assert_eq!(r.execution_time_ms, 1234);
            assert_eq!(r.units_consumed, 42000);
            assert_eq!(r.in_amount, "100000000");
            assert_eq!(r.out_amount, "14612345");
        }
        other => panic!("expected a receipt, got {:?}", other),
    }
    assert!(flow.transaction().is_none());
}

#[test]
fn execute_flow_refusals() {
    let bad = intent("", "x", 1, "y");
    let (_, action) = ExecuteFlow::start(&bad);
    match action {
        ExecuteAction::Reject(r) => assert_eq!((r.status, r.message.as_str()), (400, "inputMint is required")),
        other => panic!("{:?}", other),
    }

    let good = intent("a", "b", 1, &"k".repeat(40));
    let (mut flow, _) = ExecuteFlow::start(&good);
    match flow.step(ExecuteEvent::QuoteFailed("timeout".to_string())) {
        ExecuteAction::Reject(r) => assert_eq!((r.status, r.message.as_str()), (500, "Failed to get quote: timeout")),
        other => panic!("{:?}", other),
    }

    let (mut flow, _) = ExecuteFlow::start(&good);
    flow.step(ExecuteEvent::QuoteReceived(quote(Some(encoded_transaction()), None)));
    match flow.step(ExecuteEvent::SimulationFinished(simulation_outcome(None, None)))
    {
        ExecuteAction::Execute { fee_level } => assert_eq!(fee_level, FeeLevel::High),
        other => panic!("{:?}", other),
    }
    match flow.step(ExecuteEvent::ExecutionFailed(SolverError::TransactionExecutionFailed("boom".to_string()))) {
        ExecuteAction::Reject(r) => {
            assert_eq!(r.status, 500);
            assert_eq!(r.message, "Execution failed: Transaction execution failed: boom");
        }
        other => panic!("{:?}", other),
    }

    let (mut flow, _) = ExecuteFlow::start(&good);
    flow.step(ExecuteEvent::QuoteReceived(quote(Some(encoded_transaction()), None)));
    match flow.step(ExecuteEvent::SimulationFailed(SolverError::TransactionExecutionFailed("rpc".to_string()))) {
        ExecuteAction::Reject(r) => {
            assert_eq!(r.message, "Simulation failed: Transaction execution failed: rpc")
        }
        other => panic!("{:?}", other),
    }

    let (mut flow, _) = ExecuteFlow::start(&good);
    flow.step(ExecuteEvent::QuoteReceived(quote(Some(encoded_transaction()), None)));
    match flow.step(ExecuteEvent::SimulationFinished(simulation_outcome(Some(1), None).clone())) {
        ExecuteAction::Execute { fee_level } => assert_eq!(fee_level, FeeLevel::High),
        other => panic!("{:?}", other),
    }
    let (mut flow, _) = ExecuteFlow::start(&good);
    flow.step(ExecuteEvent::QuoteReceived(quote(Some(encoded_transaction()), None)));
    let failed = simulation_outcome(Some(1), None);
    let failed = solver_core::executor::SimulationResult { success: false, error: None, ..failed };
    match flow.step(ExecuteEvent::SimulationFinished(failed)) {
        ExecuteAction::Reject(r) => {
            assert_eq!((r.status, r.message.as_str()), (400, "Transaction simulation failed: unknown error"))
        }
        other => panic!("{:?}", other),
    }
}
