//! Decisions of the solver service's HTTP handlers. The `/execute` handler
//! alternates outside work (fetching a quote, simulating, sending) with
//! decisions; `ExecuteFlow` holds those decisions as a state machine that
//! is fed the outcome of each piece of outside work and answers with the
//! next thing to do.

use vstd::prelude::*;
use vstd::string::StringExecFns;
use base64::Engine;
use solana_sdk::transaction::VersionedTransaction;
use crate::error::SolverError;
use crate::executor::SimulationResult;
use crate::fee_estimator::FeeLevel;
use crate::swapper::{JupiterOrderResponse, SwapIntent};
use crate::text::join_str;

verus! {

/// HTTP status for a request the service refuses.
pub const STATUS_BAD_REQUEST: u16 = 400;

/// HTTP status for a failure on the service's side.
pub const STATUS_INTERNAL_ERROR: u16 = 500;

#[verifier::external_type_specification]
#[verifier::external_body]
pub struct ExVersionedTransaction(solana_sdk::transaction::VersionedTransaction);

/// An HTTP error answer: a status code and a message.
#[derive(Debug, Clone)]
pub struct Rejection {
    pub status: u16,
    pub message: String,
}

impl View for Rejection {
    type V = (u16, Seq<char>);

    open spec fn view(&self) -> (u16, Seq<char>) {
        (self.status, self.message@)
    }
}

/// The data of a successful execution, as reported to the client.
#[derive(Debug, Clone)]
pub struct ExecuteReceipt {
    pub signature: String,
    pub priority_fee: u64,
    pub execution_time_ms: u64,
    pub units_consumed: u64,
    pub in_amount: String,
    pub out_amount: String,
}

/// What standard base64 decoding (`base64::engine::general_purpose::STANDARD`)
/// makes of the UTF-8 bytes of `text`: the decoded bytes, or the text of the
/// decoding error.
pub uninterp spec fn base64_standard_decoding(text: Seq<char>) -> Result<Seq<u8>, Seq<char>>;

/// Calls `Engine::decode` of `base64::engine::general_purpose::STANDARD` on
/// the bytes of `text`; a decoding error is turned into its display text.
/// The contract names the result (`base64_standard_decoding`) without
/// restating the base64 alphabet and padding rules.
#[verifier::external_body]
fn decode_base64_standard(text: &str) -> (res: Result<Vec<u8>, String>)
    ensures
        match res {
            Ok(bytes) => base64_standard_decoding(text@) == Ok::<Seq<u8>, Seq<char>>(bytes@),
            Err(msg) => base64_standard_decoding(text@) == Err::<Seq<u8>, Seq<char>>(msg@),
        },
{
    match base64::engine::general_purpose::STANDARD.decode(text) {
        Ok(bytes) => Ok(bytes),
        Err(e) => Err(e.to_string()),
    }
}

/// What `bincode::deserialize` makes of `bytes` read as a
/// `VersionedTransaction`: the transaction, or the display text of the error.
pub uninterp spec fn bincode_transaction(bytes: Seq<u8>) -> Result<VersionedTransaction, Seq<char>>;

/// Calls `bincode::deserialize::<VersionedTransaction>` on `bytes`; an error
/// is turned into its display text. The result is named
/// (`bincode_transaction`); the wire format is not restated.
#[verifier::external_body]
fn deserialize_transaction(bytes: &[u8]) -> (res: Result<VersionedTransaction, String>)
    ensures
        match res {
            Ok(tx) => bincode_transaction(bytes@) == Ok::<VersionedTransaction, Seq<char>>(tx),
            Err(msg) => bincode_transaction(bytes@) == Err::<VersionedTransaction, Seq<char>>(msg@),
        },
{
    match bincode::deserialize::<VersionedTransaction>(bytes) {
        Ok(tx) => Ok(tx),
        Err(e) => Err(e.to_string()),
    }
}

/// Why a quote cannot be executed, as a status and message, or `None` when
/// its transaction can be simulated.
pub open spec fn quote_rejection(quote: JupiterOrderResponse) -> Option<(u16, Seq<char>)> {
    match quote.error_message {
        Some(err) => Some((STATUS_BAD_REQUEST, "Jupiter returned error: "@ + err@)),
        None => match quote.transaction {
            None => Some((STATUS_BAD_REQUEST, "Quote did not include a transaction"@)),
            Some(tx) => match base64_standard_decoding(tx@) {
                Err(m) => Some((STATUS_INTERNAL_ERROR, "Failed to decode transaction: "@ + m)),
                Ok(bytes) => match bincode_transaction(bytes) {
                    Err(m) => Some((STATUS_INTERNAL_ERROR, "Failed to deserialize transaction: "@ + m)),
                    Ok(_) => None,
                },
            },
        },
    }
}

/// The transaction a quote carries: its base64 text decoded, then
/// deserialized; `None` when either step fails or there is none.
pub open spec fn quote_transaction(quote: JupiterOrderResponse) -> Option<VersionedTransaction> {
    match quote.transaction {
        None => None,
        Some(tx) => match base64_standard_decoding(tx@) {
            Err(_) => None,
            Ok(bytes) => match bincode_transaction(bytes) {
                Err(_) => None,
                Ok(t) => Some(t),
            },
        },
    }
}

/// Why a simulated transaction is not sent, or `None` when it may be.
pub open spec fn simulation_rejection(sim: SimulationResult) -> Option<(u16, Seq<char>)> {
    if sim.success {
        None
    } else {
        Some((STATUS_BAD_REQUEST, "Transaction simulation failed: "@ + match sim.error {
            Some(e) => e@,
            None => "unknown error"@,
        }))
    }
}

/// A refusal of a malformed request.
pub fn invalid_request(reason: String) -> (r: Rejection)
    ensures
        r@ == (STATUS_BAD_REQUEST, reason@),
{
    Rejection { status: STATUS_BAD_REQUEST, message: reason }
}

/// The answer when the Jupiter order request of `/solve` failed with `detail`.
pub fn solve_failure(detail: &str) -> (r: Rejection)
    ensures
        r@ == (STATUS_INTERNAL_ERROR, "Failed to get order from Jupiter: "@ + detail@),
{
    Rejection { status: STATUS_INTERNAL_ERROR, message: join_str("Failed to get order from Jupiter: ", detail) }
}

/// Checks a `/solve` request: a malformed intent is refused with its
/// validation message.
pub fn check_solve_request(intent: &SwapIntent) -> (r: Result<(), Rejection>)
    ensures
        match r {
            Ok(()) => intent.validation_error() is None,
            Err(rej) => intent.validation_error() == Some(rej@.1) && rej.status == STATUS_BAD_REQUEST,
        },
{
    match intent.validate() {
        Ok(()) => Ok(()),
        Err(e) => Err(invalid_request(e)),
    }
}

/// Extracts the transaction of a quote: a quote with an error, without a
/// transaction, or whose transaction does not decode is refused (see
/// `quote_rejection`).
pub fn transaction_from_quote(quote: &JupiterOrderResponse) -> (r: Result<VersionedTransaction, Rejection>)
    ensures
        match r {
            Ok(tx) => quote_rejection(*quote) is None && quote_transaction(*quote) == Some(tx),
            Err(rej) => quote_rejection(*quote) == Some(rej@),
        },
{
    if let Some(err) = &quote.error_message {
        return Err(Rejection { status: STATUS_BAD_REQUEST, message: join_str("Jupiter returned error: ", err.as_str()) });
    }
    let tx_b64 = match &quote.transaction {
        Some(t) => t,
        None => {
            return Err(Rejection {
                status: STATUS_BAD_REQUEST,
                message: String::from_str("Quote did not include a transaction"),
            });
        },
    };
    let bytes = match decode_base64_standard(tx_b64.as_str()) {
        Ok(b) => b,
        Err(m) => {
            return Err(Rejection {
                status: STATUS_INTERNAL_ERROR,
                message: join_str("Failed to decode transaction: ", m.as_str()),
            });
        },
    };
    match deserialize_transaction(bytes.as_slice()) {
        Ok(tx) => Ok(tx),
        Err(m) => Err(Rejection {
            status: STATUS_INTERNAL_ERROR,
            message: join_str("Failed to deserialize transaction: ", m.as_str()),
        }),
    }
}

/// Checks a simulation before sending: a failed simulation is refused with
/// its error (see `simulation_rejection`).
pub fn check_simulation(sim: &SimulationResult) -> (r: Result<(), Rejection>)
    ensures
        match r {
            Ok(()) => simulation_rejection(*sim) is None,
            Err(rej) => simulation_rejection(*sim) == Some(rej@),
        },
{
    if sim.success {
        return Ok(());
    }
    let reason = match &sim.error {
        Some(e) => e.as_str(),
        None => "unknown error",
    };
    Err(Rejection { status: STATUS_BAD_REQUEST, message: join_str("Transaction simulation failed: ", reason) })
}


/// Where an `/execute` request stands.
#[derive(Debug, Clone, Copy, PartialEq, Eq, Structural)]
pub enum ExecutePhase {
    /// Waiting for the Jupiter quote.
    AwaitingQuote,
    /// Waiting for the pre-flight simulation of the quoted transaction.
    AwaitingSimulation,
    /// Waiting for the transaction to be sent and confirmed.
    AwaitingExecution,
    /// The request has been answered.
    Finished,
}

impl ExecutePhase {
    /// How far a request has come: 0 while quoting, up to 3 once answered.
    pub open spec fn progress(self) -> nat {
        match self {
            ExecutePhase::AwaitingQuote => 0,
            ExecutePhase::AwaitingSimulation => 1,
            ExecutePhase::AwaitingExecution => 2,
            ExecutePhase::Finished => 3,
        }
    }
}

/// The outcome of a piece of outside work, handed back to the flow.
#[derive(Debug)]
pub enum ExecuteEvent {
    /// Jupiter answered the order request.
    QuoteReceived(JupiterOrderResponse),
    /// The order request failed; the text is what the HTTP client reported.
    QuoteFailed(String),
    /// The simulation ran.
    SimulationFinished(SimulationResult),
    /// The simulation request failed.
    SimulationFailed(SolverError),
    /// The transaction was confirmed, with the priority fee quoted for it and
    /// the time the request took.
    Executed { signature: String, priority_fee: u64, elapsed_ms: u64 },
    /// Sending or confirming the transaction failed.
    ExecutionFailed(SolverError),
}

impl ExecuteEvent {
    /// The phase in which the flow waits for this kind of event.
    pub open spec fn answers(&self) -> ExecutePhase {
        match self {
            ExecuteEvent::QuoteReceived(_) => ExecutePhase::AwaitingQuote,
            ExecuteEvent::QuoteFailed(_) => ExecutePhase::AwaitingQuote,
            ExecuteEvent::SimulationFinished(_) => ExecutePhase::AwaitingSimulation,
            ExecuteEvent::SimulationFailed(_) => ExecutePhase::AwaitingSimulation,
            ExecuteEvent::Executed { .. } => ExecutePhase::AwaitingExecution,
            ExecuteEvent::ExecutionFailed(_) => ExecutePhase::AwaitingExecution,
        }
    }
}

/// No event is awaited once a request has been answered: a finished flow
/// takes no further step. Since every step moves the flow forward (see
/// `ExecuteFlow::step`), a request is answered after at most three steps.
pub proof fn law_finished_flow_is_terminal(event: ExecuteEvent)
    ensures
        event.answers() != ExecutePhase::Finished,
{
}

/// What the flow asks to be done next.
#[derive(Debug)]
pub enum ExecuteAction {
    /// Ask Jupiter for an order for the intent.
    RequestQuote,
    /// Simulate the flow's transaction (see `ExecuteFlow::transaction`).
    Simulate,
    /// Quote the priority fee of `fee_level`, then send and confirm the
    /// flow's transaction.
    Execute { fee_level: FeeLevel },
    /// Answer the request with this receipt.
    Respond(ExecuteReceipt),
    /// Answer the request with this error.
    Reject(Rejection),
}

/// The decisions of one `/execute` request.
pub struct ExecuteFlow {
    phase: ExecutePhase,
    in_amount: String,
    out_amount: String,
    units_consumed: u64,
    transaction: Option<VersionedTransaction>,
}

impl ExecuteFlow {
    /// Where the request stands.
    pub closed spec fn phase(&self) -> ExecutePhase {
        self.phase
    }

    /// The input and output amounts of the accepted quote.
    pub closed spec fn quoted_amounts(&self) -> (Seq<char>, Seq<char>) {
        (self.in_amount@, self.out_amount@)
    }

    /// The transaction decoded from the accepted quote, which is simulated
    /// and then sent.
    pub closed spec fn pending_transaction(&self) -> Option<VersionedTransaction> {
        self.transaction
    }

    /// A transaction is held exactly while it awaits simulation or sending.
    pub open spec fn wf(&self) -> bool {
        (self.phase() == ExecutePhase::AwaitingSimulation || self.phase() == ExecutePhase::AwaitingExecution)
            <==> self.pending_transaction() is Some
    }

    /// The transaction to simulate and send.
    pub fn transaction(&self) -> (tx: Option<&VersionedTransaction>)
        ensures
            match tx {
                Some(t) => self.pending_transaction() == Some(*t),
                None => self.pending_transaction() is None,
            },
    {
        match &self.transaction {
            Some(t) => Some(t),
            None => None,
        }
    }

    /// The compute units the accepted simulation consumed.
    pub closed spec fn simulated_units(&self) -> u64 {
        self.units_consumed
    }

    /// Starts a request: a malformed intent is refused at once, otherwise a
    /// quote is requested.
    pub fn start(intent: &SwapIntent) -> (res: (ExecuteFlow, ExecuteAction))
        ensures
            match intent.validation_error() {
                Some(e) => {
                    &&& res.0.wf()
                    &&& res.0.phase() == ExecutePhase::Finished
                    &&& res.1 matches ExecuteAction::Reject(r) && r@ == (STATUS_BAD_REQUEST, e)
                },
                None => res.0.wf() && res.0.phase() == ExecutePhase::AwaitingQuote && res.1 is RequestQuote,
            },
    {
        let mut flow = ExecuteFlow {
            phase: ExecutePhase::AwaitingQuote,
            in_amount: String::new(),
            out_amount: String::new(),
            units_consumed: 0,
            transaction: None,
        };
        match intent.validate() {
            Ok(()) => (flow, ExecuteAction::RequestQuote),
            Err(e) => {
                flow.phase = ExecutePhase::Finished;
                (flow, ExecuteAction::Reject(invalid_request(e)))
            },
        }
    }

    /// Takes the outcome of the outside work the flow asked for and decides
    /// what comes next. A transaction is only simulated when the quote is
    /// usable, and only sent after a successful simulation; every failure
    /// ends the request with a rejection.
    pub fn step(&mut self, event: ExecuteEvent) -> (action: ExecuteAction)
        requires
            old(self).wf(),
            event.answers() == old(self).phase(),
        ensures
            final(self).wf(),
            match event {
                ExecuteEvent::QuoteReceived(q) => match quote_rejection(q) {
                    Some(rej) => action matches ExecuteAction::Reject(r) && r@ == rej
                        && final(self).phase() == ExecutePhase::Finished,
                    None => action is Simulate && final(self).phase() == ExecutePhase::AwaitingSimulation
                        && final(self).quoted_amounts() == (q.in_amount@, q.out_amount@)
                        && final(self).pending_transaction() == quote_transaction(q)
                        && quote_transaction(q) is Some,
                },
                ExecuteEvent::QuoteFailed(d) => action matches ExecuteAction::Reject(r)
                    && r@ == (STATUS_INTERNAL_ERROR, "Failed to get quote: "@ + d@)
                    && final(self).phase() == ExecutePhase::Finished,
                ExecuteEvent::SimulationFinished(sim) => match simulation_rejection(sim) {
                    Some(rej) => action matches ExecuteAction::Reject(r) && r@ == rej
                        && final(self).phase() == ExecutePhase::Finished,
                    None => action == (ExecuteAction::Execute { fee_level: FeeLevel::High })
                        && final(self).phase() == ExecutePhase::AwaitingExecution
                        && final(self).pending_transaction() == old(self).pending_transaction()
                        && final(self).simulated_units() == sim.units_consumed
                        && final(self).quoted_amounts() == old(self).quoted_amounts(),
                },
                ExecuteEvent::SimulationFailed(e) => action matches ExecuteAction::Reject(r)
                    && r@ == (STATUS_INTERNAL_ERROR, "Simulation failed: "@ + e.spec_message())
                    && final(self).phase() == ExecutePhase::Finished,
                ExecuteEvent::Executed { signature, priority_fee, elapsed_ms } => action matches ExecuteAction::Respond(rc)
                    && rc.signature@ == signature@ && rc.priority_fee == priority_fee
                    && rc.execution_time_ms == elapsed_ms
                    && rc.units_consumed == old(self).simulated_units()
                    && (rc.in_amount@, rc.out_amount@) == old(self).quoted_amounts()
                    && final(self).phase() == ExecutePhase::Finished,
                ExecuteEvent::ExecutionFailed(e) => action matches ExecuteAction::Reject(r)
                    && r@ == (STATUS_INTERNAL_ERROR, "Execution failed: "@ + e.spec_message())
                    && final(self).phase() == ExecutePhase::Finished,
            },
            final(self).phase().progress() > old(self).phase().progress(),
            action is Execute ==> {
                &&& final(self).pending_transaction() == old(self).pending_transaction()
                &&& old(self).phase() == ExecutePhase::AwaitingSimulation
                &&& event matches ExecuteEvent::SimulationFinished(sim) && sim.success
            },
            action is Simulate ==> {
                &&& event matches ExecuteEvent::QuoteReceived(q) && q.error_message is None
                    && q.transaction is Some
            },
    {
        match event {
            ExecuteEvent::QuoteReceived(q) => {
                match transaction_from_quote(&q) {
                    Ok(tx) => {
                        self.in_amount = q.in_amount;
                        self.out_amount = q.out_amount;
                        self.transaction = Some(tx);
                        self.phase = ExecutePhase::AwaitingSimulation;
                        ExecuteAction::Simulate
                    },
                    Err(r) => {
                        self.transaction = None;
                        self.phase = ExecutePhase::Finished;
                        ExecuteAction::Reject(r)
                    },
                }
            },
            ExecuteEvent::QuoteFailed(d) => {
                self.transaction = None;
                self.phase = ExecutePhase::Finished;
                ExecuteAction::Reject(Rejection {
                    status: STATUS_INTERNAL_ERROR,
                    message: join_str("Failed to get quote: ", d.as_str()),
                })
            },
            ExecuteEvent::SimulationFinished(sim) => {
                match check_simulation(&sim) {
                    Ok(()) => {
                        self.units_consumed = sim.units_consumed;
                        self.phase = ExecutePhase::AwaitingExecution;
                        ExecuteAction::Execute { fee_level: FeeLevel::High }
                    },
                    Err(r) => {
                        self.transaction = None;
                        self.phase = ExecutePhase::Finished;
                        ExecuteAction::Reject(r)
                    },
                }
            },
            ExecuteEvent::SimulationFailed(e) => {
                self.transaction = None;
                self.phase = ExecutePhase::Finished;
                let m = e.message();
                ExecuteAction::Reject(Rejection {
                    status: STATUS_INTERNAL_ERROR,
                    message: join_str("Simulation failed: ", m.as_str()),
                })
            },
            ExecuteEvent::Executed { signature, priority_fee, elapsed_ms } => {
                self.transaction = None;
                self.phase = ExecutePhase::Finished;
                ExecuteAction::Respond(ExecuteReceipt {
                    signature,
                    priority_fee,
                    execution_time_ms: elapsed_ms,
                    units_consumed: self.units_consumed,
                    in_amount: self.in_amount.clone(),
                    out_amount: self.out_amount.clone(),
                })
            },
            ExecuteEvent::ExecutionFailed(e) => {
                self.transaction = None;
                self.phase = ExecutePhase::Finished;
                let m = e.message();
                ExecuteAction::Reject(Rejection {
                    status: STATUS_INTERNAL_ERROR,
                    message: join_str("Execution failed: ", m.as_str()),
                })
            },
        }
    }
}

} // verus!
