//! The error type of the solver.

use vstd::prelude::*;
use crate::text::join_str;

verus! {

/// Why a solver operation failed. Each variant carries the detail text of the
/// underlying failure.
#[derive(Debug, Clone)]
pub enum SolverError {
    /// An HTTP request failed; the text is what the HTTP client reported.
    RequestFailed(String),
    /// An API answered with a non-success status.
    ApiError(String),
    /// Simulating, sending or confirming a transaction failed.
    TransactionExecutionFailed(String),
}

impl SolverError {
    /// The detail text carried by the error.
    pub open spec fn detail(&self) -> Seq<char> {
        match self {
            SolverError::RequestFailed(m) => m@,
            SolverError::ApiError(m) => m@,
            SolverError::TransactionExecutionFailed(m) => m@,
        }
    }

    /// The human-readable description of the error.
    pub open spec fn spec_message(&self) -> Seq<char> {
        match self {
            SolverError::RequestFailed(m) => "Reqwest failed: "@ + m@,
            SolverError::ApiError(m) => "API returned a non-success status: "@ + m@,
            SolverError::TransactionExecutionFailed(m) => "Transaction execution failed: "@ + m@,
        }
    }

    /// The human-readable description of the error.
    pub fn message(&self) -> (s: String)
        ensures
            s@ == self.spec_message(),
    {
        match self {
            SolverError::RequestFailed(m) => join_str("Reqwest failed: ", m.as_str()),
            SolverError::ApiError(m) => join_str("API returned a non-success status: ", m.as_str()),
            SolverError::TransactionExecutionFailed(m) => join_str(
                "Transaction execution failed: ",
                m.as_str(),
            ),
        }
    }
}

} // verus!
