//! Decisions of the transaction executor: how a simulation reply is read,
//! which send errors are worth retrying, and the retry schedule with
//! exponential backoff.

use vstd::prelude::*;
use vstd::arithmetic::power2::pow2;
use vstd::string::StringExecFns;
use crate::error::SolverError;
use crate::text::{join_str, contains_seq, decimal, push_decimal, str_contains};

verus! {

/// How many times a failed send is retried.
pub const MAX_RETRIES: u32 = 3;

/// The wait before the first retry, in milliseconds; each further retry
/// waits twice as long as the one before.
pub const BASE_RETRY_DELAY_MS: u64 = 1000;

/// Result of a transaction simulation.
#[derive(Debug, Clone)]
pub struct SimulationResult {
    pub success: bool,
    pub units_consumed: u64,
    pub error: Option<String>,
}

/// Reads a simulation reply: the compute units it reports (0 when it
/// reports none) and the error it reports, if any; the simulation
/// succeeded exactly when no error was reported.
pub fn simulation_outcome(units_consumed: Option<u64>, error: Option<String>) -> (r: SimulationResult)
    ensures
        r.success == (error is None),
        r.units_consumed == (match units_consumed {
            Some(u) => u,
            None => 0,
        }),
        r.error == error,
{
    let units = match units_consumed {
        Some(u) => u,
        None => 0,
    };
    match error {
        Some(e) => SimulationResult { success: false, units_consumed: units, error: Some(e) },
        None => SimulationResult { success: true, units_consumed: units, error: None },
    }
}

/// The error reported when the simulation request itself failed;
/// `detail` is what the RPC client reported.
pub fn simulation_rpc_failure(detail: &str) -> (e: SolverError)
    ensures
        e is TransactionExecutionFailed,
        e.detail() == "Simulation RPC call failed: "@ + detail@,
{
    SolverError::TransactionExecutionFailed(join_str("Simulation RPC call failed: ", detail))
}


/// Lower-cased text, as `str::to_lowercase` computes it.
pub uninterp spec fn lowercased(s: Seq<char>) -> Seq<char>;

/// Calls `str::to_lowercase`, which returns the lowercase equivalent of the
/// string as defined by the Unicode `Lowercase` property. The contract only
/// names the result (`lowercased`); the Unicode mapping is not restated.
#[verifier::external_body]
fn to_lowercase(s: &str) -> (res: String)
    ensures
        res@ == lowercased(s@),
{
    s.to_lowercase()
}

/// The lower-case phrases that mark a send error as permanent.
pub open spec fn non_retryable_markers() -> Seq<Seq<char>> {
    seq![
        "invalid signature"@,
        "simulation failed"@,
        "transaction signature verification failure"@,
        "account not found"@,
        "insufficient funds"@,
    ]
}

/// `lower` contains one of the phrases that mark a send error as permanent.
pub open spec fn has_non_retryable_marker(lower: Seq<char>) -> bool {
    exists|i: int| 0 <= i < non_retryable_markers().len() && contains_seq(lower, #[trigger] non_retryable_markers()[i])
}

/// A send error is permanent exactly when its lower-cased text contains one
/// of the five phrases "invalid signature", "simulation failed",
/// "transaction signature verification failure", "account not found" or
/// "insufficient funds"; every other error is retried.
pub proof fn law_permanent_error_phrases(lower: Seq<char>)
    ensures
        has_non_retryable_marker(lower) <==> (contains_seq(lower, "invalid signature"@) || contains_seq(
            lower,
            "simulation failed"@,
        ) || contains_seq(lower, "transaction signature verification failure"@) || contains_seq(
            lower,
            "account not found"@,
        ) || contains_seq(lower, "insufficient funds"@)),
{
    let m = non_retryable_markers();
    assert(m.len() == 5);
    assert(m[0] == "invalid signature"@);
    assert(m[1] == "simulation failed"@);
    assert(m[2] == "transaction signature verification failure"@);
    assert(m[3] == "account not found"@);
    assert(m[4] == "insufficient funds"@);
    if has_non_retryable_marker(lower) {
        let i = choose|i: int| 0 <= i < m.len() && contains_seq(lower, #[trigger] m[i]);
        if i == 0 {} else if i == 1 {} else if i == 2 {} else if i == 3 {} else {}
    }
    if contains_seq(lower, "invalid signature"@) { assert(contains_seq(lower, m[0])); }
    if contains_seq(lower, "simulation failed"@) { assert(contains_seq(lower, m[1])); }
    if contains_seq(lower, "transaction signature verification failure"@) { assert(contains_seq(lower, m[2])); }
    if contains_seq(lower, "account not found"@) { assert(contains_seq(lower, m[3])); }
    if contains_seq(lower, "insufficient funds"@) { assert(contains_seq(lower, m[4])); }
}

/// Whether the (already lower-cased) error text `lower` contains one of the
/// phrases that mark a send error as permanent.
pub fn contains_non_retryable_marker(lower: &str) -> (b: bool)
    ensures
        b == has_non_retryable_marker(lower@),
{
    let c0 = str_contains(lower, "invalid signature");
    let c1 = str_contains(lower, "simulation failed");
    let c2 = str_contains(lower, "transaction signature verification failure");
    let c3 = str_contains(lower, "account not found");
    let c4 = str_contains(lower, "insufficient funds");
    let b = c0 || c1 || c2 || c3 || c4;
    proof {
        let m = non_retryable_markers();
        assert(m[0] == "invalid signature"@);
        assert(m[1] == "simulation failed"@);
        assert(m[2] == "transaction signature verification failure"@);
        assert(m[3] == "account not found"@);
        assert(m[4] == "insufficient funds"@);
        if b {
            if c0 { assert(contains_seq(lower@, m[0])); }
            else if c1 { assert(contains_seq(lower@, m[1])); }
            else if c2 { assert(contains_seq(lower@, m[2])); }
            else if c3 { assert(contains_seq(lower@, m[3])); }
            else { assert(contains_seq(lower@, m[4])); }
        } else {
            assert forall|i: int| 0 <= i < m.len() implies !contains_seq(lower@, #[trigger] m[i]) by {
                if i == 0 {} else if i == 1 {} else if i == 2 {} else if i == 3 {} else {}
            }
        }
    }
    b
}

/// Whether a send error is permanent (an invalid signature, a failed
/// simulation, a failed signature verification, a missing account or
/// insufficient funds, in any letter case), so that retrying cannot help.
pub fn is_non_retryable_error(err: &str) -> (b: bool)
    ensures
        b == has_non_retryable_marker(lowercased(err@)),
{
    let lower = to_lowercase(err);
    contains_non_retryable_marker(lower.as_str())
}

/// The wait, in milliseconds, before send attempt `attempt` (counting from 0):
/// none before the first send, then `BASE_RETRY_DELAY_MS * 2^(attempt - 1)`.
pub open spec fn retry_delay(attempt: nat) -> nat {
    if attempt == 0 {
        0
    } else {
        (BASE_RETRY_DELAY_MS * pow2((attempt - 1) as nat)) as nat
    }
}

/// The detail of the error reported once every attempt has failed.
pub open spec fn exhausted_detail(last_error: Option<Seq<char>>) -> Seq<char> {
    "Transaction failed after "@ + decimal(MAX_RETRIES as nat) + " retries: "@ + match last_error {
        Some(e) => e,
        None => "Unknown error"@,
    }
}

/// The detail of the error reported for a permanent send error.
pub open spec fn non_retryable_detail(err: Seq<char>) -> Seq<char> {
    "Transaction failed (non-retryable): "@ + err
}

/// Each retry waits twice as long as the retry before it.
pub proof fn law_backoff_doubles(attempt: nat)
    requires
        attempt >= 1,
    ensures
        retry_delay(attempt + 1) == 2 * retry_delay(attempt),
        retry_delay(1) == BASE_RETRY_DELAY_MS,
{
    vstd::arithmetic::power2::lemma_pow2_unfold(attempt);
    vstd::arithmetic::power2::lemma2_to64();
    vstd::arithmetic::power2::lemma_pow2_pos((attempt - 1) as nat);
    assert(BASE_RETRY_DELAY_MS * pow2(attempt) == 2 * (BASE_RETRY_DELAY_MS * pow2((attempt - 1) as nat))) by (nonlinear_arith)
        requires
            pow2(attempt) == 2 * pow2((attempt - 1) as nat),
    ;
}

/// What the executor does next.
#[derive(Debug)]
pub enum RetryStep {
    /// Wait `delay_ms` milliseconds (no wait when 0), then send the transaction.
    Send { delay_ms: u64 },
    /// Stop and report the error.
    GiveUp(SolverError),
}

/// Progress of sending one transaction with retries: how many sends have
/// failed so far and the text of the last failure.
pub struct RetryState {
    attempt: u32,
    last_error: Option<String>,
}

impl RetryState {
    /// How many sends have failed so far.
    pub closed spec fn failures(&self) -> nat {
        self.attempt as nat
    }

    /// The text of the last failed send, if any.
    pub closed spec fn last_failure(&self) -> Option<Seq<char>> {
        match self.last_error {
            Some(e) => Some(e@),
            None => None,
        }
    }

    /// At most `MAX_RETRIES + 1` sends have failed, and a failure text is
    /// recorded exactly when one has.
    pub open spec fn wf(&self) -> bool {
        &&& self.failures() <= MAX_RETRIES + 1
        &&& (self.failures() == 0 <==> self.last_failure() is None)
    }

    /// No send has been made yet.
    pub fn new() -> (s: RetryState)
        ensures
            s.wf(),
            s.failures() == 0,
            s.last_failure() is None,
    {
        RetryState { attempt: 0, last_error: None }
    }

    /// The next step: send again (after the backoff delay) while fewer than
    /// `MAX_RETRIES + 1` sends have failed, else give up with the last
    /// failure's text.
    pub fn next_step(&self) -> (step: RetryStep)
        requires
            self.wf(),
        ensures
            self.failures() <= MAX_RETRIES ==> step == (RetryStep::Send {
                delay_ms: retry_delay(self.failures()) as u64,
            }),
            self.failures() > MAX_RETRIES ==> (step matches RetryStep::GiveUp(e) && e is TransactionExecutionFailed
                && e.detail() == exhausted_detail(self.last_failure())),
    {
        if self.attempt <= MAX_RETRIES {
            let mut delay: u64 = 0;
            if self.attempt > 0 {
                delay = BASE_RETRY_DELAY_MS;
                proof {
                    vstd::arithmetic::power2::lemma2_to64();
                }
                let mut k: u32 = 1;
                while k < self.attempt
                    invariant
                        1 <= k <= self.attempt <= MAX_RETRIES,
                        delay == BASE_RETRY_DELAY_MS * pow2((k - 1) as nat),
                    decreases self.attempt - k,
                {
                    proof {
                        vstd::arithmetic::power2::lemma_pow2_unfold(k as nat);
                        vstd::arithmetic::power2::lemma_pow2_strictly_increases((k - 1) as nat, 2);
                        vstd::arithmetic::power2::lemma2_to64();
                    }
                    delay = delay * 2;
                    k = k + 1;
                }
            }
            RetryStep::Send { delay_ms: delay }
        } else {
            let mut detail = String::from_str("Transaction failed after ");
            push_decimal(&mut detail, MAX_RETRIES as u64);
            detail.append(" retries: ");
            match &self.last_error {
                Some(e) => detail.append(e.as_str()),
                None => detail.append("Unknown error"),
            }
            RetryStep::GiveUp(SolverError::TransactionExecutionFailed(detail))
        }
    }

    /// Records that a send failed with the text `err`. A permanent error
    /// (see `is_non_retryable_error`) ends the attempts with that error;
    /// any other is remembered and counted, and `None` is returned.
    pub fn record_failure(&mut self, err: &str) -> (fatal: Option<SolverError>)
        requires
            old(self).wf(),
            old(self).failures() <= MAX_RETRIES,
        ensures
            has_non_retryable_marker(lowercased(err@)) ==> {
                &&& fatal matches Some(e) && e is TransactionExecutionFailed
                    && e.detail() == non_retryable_detail(err@)
                &&& final(self).failures() == old(self).failures()
                &&& final(self).last_failure() == old(self).last_failure()
            },
            !has_non_retryable_marker(lowercased(err@)) ==> {
                &&& fatal is None
                &&& final(self).failures() == old(self).failures() + 1
                &&& final(self).last_failure() == Some(err@)
            },
            final(self).wf(),
    {
        if is_non_retryable_error(err) {
            return Some(SolverError::TransactionExecutionFailed(
                join_str("Transaction failed (non-retryable): ", err),
            ));
        }
        self.attempt = self.attempt + 1;
        self.last_error = Some(String::from_str(err));
        None
    }
}

} // verus!
