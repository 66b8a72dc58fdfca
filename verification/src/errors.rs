//! The error taxonomy of the protocol.

use vstd::prelude::*;

verus! {

/// Every failure a request or a callback can surface to the caller.
///
/// No failure is retried inside the core: the caller decides whether to
/// resubmit with a fresh correlation id.
#[derive(Clone, Copy, PartialEq, Eq, Structural, Debug)]
pub enum ErrorCode {
    /// The cluster reported that the computation failed; no state was touched.
    AbortedComputation,
    /// No cluster is configured; the request fails before submission.
    ClusterNotSet,
    /// A position record violates a domain rule.
    InvalidPositionState,
    /// An order's expiry has passed.
    OrderExpired,
    /// Not enough liquidity to fill an order.
    InsufficientLiquidity,
    /// A swap would exceed the allowed slippage.
    SlippageExceeded,
    /// A pending job already carries this correlation id for this circuit.
    DuplicateComputation,
    /// A callback arrived for a job that is not pending.
    DuplicateCallback,
    /// A fairness check was asked to divide by a zero oracle price.
    InvalidOraclePrice,
}

impl ErrorCode {
    /// A short description of the failure, for logs and callers.
    pub fn message(&self) -> (s: &'static str)
        ensures
            self is AbortedComputation ==> s@ == "Computation was aborted"@,
            self is ClusterNotSet ==> s@ == "Cluster not configured"@,
            self is InvalidPositionState ==> s@ == "Invalid position state"@,
            self is OrderExpired ==> s@ == "Order expired"@,
            self is InsufficientLiquidity ==> s@ == "Insufficient liquidity"@,
            self is SlippageExceeded ==> s@ == "Slippage exceeded"@,
            self is DuplicateComputation ==> s@ == "Duplicate computation for correlation id"@,
            self is DuplicateCallback ==> s@ == "Duplicate callback for terminal job"@,
            self is InvalidOraclePrice ==> s@ == "Oracle price must be positive"@,
    {
        match self {
            ErrorCode::AbortedComputation => "Computation was aborted",
            ErrorCode::ClusterNotSet => "Cluster not configured",
            ErrorCode::InvalidPositionState => "Invalid position state",
            ErrorCode::OrderExpired => "Order expired",
            ErrorCode::InsufficientLiquidity => "Insufficient liquidity",
            ErrorCode::SlippageExceeded => "Slippage exceeded",
            ErrorCode::DuplicateComputation => "Duplicate computation for correlation id",
            ErrorCode::DuplicateCallback => "Duplicate callback for terminal job",
            ErrorCode::InvalidOraclePrice => "Oracle price must be positive",
        }
    }
}

} // verus!
