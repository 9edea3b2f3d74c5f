//! The ways in which a settlement call can be refused.

use vstd::prelude::*;

verus! {

/// Why a settlement call was refused. Every refusal leaves the position and
/// the balance exactly as they were.
#[derive(Clone, Copy, Debug, PartialEq, Eq, Structural)]
pub enum SettlementError {
    /// The oracle price is zero or negative.
    InvalidOraclePrice,
    /// The entry price stored on the position is zero or negative.
    InvalidEntryPrice,
    /// A checked arithmetic step left the range of its integer type.
    CalculationOverflow,
    /// The incoming or the stored funding rate exceeds the safety bound.
    FundingRateOutOfBounds,
}

} // verus!
