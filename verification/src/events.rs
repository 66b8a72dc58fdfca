//! Domain events, published to the event sink after each successful
//! callback. Every event carries the timestamp the dispatcher was handed when
//! it consumed the callback.

use vstd::prelude::*;

verus! {

/// A position record was initialised into the store.
#[derive(Clone, Copy, PartialEq, Eq, Structural, Debug)]
pub struct PositionInitialized {
    pub timestamp: i64,
}

/// A position's health factor was recomputed and re-encrypted.
#[derive(Clone, Copy, PartialEq, Eq, Structural, Debug)]
pub struct HealthFactorUpdated {
    pub timestamp: i64,
}

/// A health threshold proof completed, revealing only the boolean.
#[derive(Clone, Copy, PartialEq, Eq, Structural, Debug)]
pub struct HealthThresholdProved {
    pub is_healthy: bool,
    pub timestamp: i64,
}

/// A dark pool order record was initialised into the store.
#[derive(Clone, Copy, PartialEq, Eq, Structural, Debug)]
pub struct DarkPoolOrderCreated {
    pub timestamp: i64,
}

/// An order matching computation completed, revealing only whether the pair
/// matched.
#[derive(Clone, Copy, PartialEq, Eq, Structural, Debug)]
pub struct DarkPoolOrdersMatched {
    pub is_matched: bool,
    pub timestamp: i64,
}

/// A private swap computation completed, revealing only whether it settled.
#[derive(Clone, Copy, PartialEq, Eq, Structural, Debug)]
pub struct PrivateSwapExecuted {
    pub success: bool,
    pub timestamp: i64,
}

/// A batch health check completed, revealing only the at-risk count.
#[derive(Clone, Copy, PartialEq, Eq, Structural, Debug)]
pub struct BatchHealthChecked {
    pub at_risk_count: u8,
    pub timestamp: i64,
}

/// A liquidation risk computation completed, revealing only the tier.
#[derive(Clone, Copy, PartialEq, Eq, Structural, Debug)]
pub struct LiquidationRiskCalculated {
    pub risk_level: u8,
    pub timestamp: i64,
}

/// Everything the event sink can receive. Exactly one event is emitted per
/// successfully completed job; aborted or rejected callbacks emit nothing.
#[derive(Clone, Copy, PartialEq, Eq, Structural, Debug)]
pub enum DomainEvent {
    PositionInitialized(PositionInitialized),
    HealthFactorUpdated(HealthFactorUpdated),
    HealthThresholdProved(HealthThresholdProved),
    DarkPoolOrderCreated(DarkPoolOrderCreated),
    DarkPoolOrdersMatched(DarkPoolOrdersMatched),
    PrivateSwapExecuted(PrivateSwapExecuted),
    BatchHealthChecked(BatchHealthChecked),
    LiquidationRiskCalculated(LiquidationRiskCalculated),
}

} // verus!
