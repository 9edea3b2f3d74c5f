//! The accounts that a settlement reads and writes, and the record it leaves.

use vstd::prelude::*;
use anchor_lang::prelude::Pubkey;

verus! {

/// The address type of `anchor_lang` (`anchor_lang::prelude::Pubkey`). It is
/// carried from the settlement context into the audit record and never
/// inspected: nothing is claimed about what it holds.
#[verifier::external_type_specification]
#[verifier::external_body]
pub struct ExPubkey(Pubkey);

/// One trading position.
#[derive(Clone, Copy, Debug, PartialEq, Eq, Structural)]
pub struct Position {
    /// Signed size in units of the underlying: positive is long, negative is
    /// short, zero is flat. Settlement never changes it.
    pub size: i64,
    /// Price checkpoint: the price at which the position was last marked.
    pub entry_price: i64,
    /// Funding checkpoint: the funding rate that was last settled.
    pub last_funding_rate: i64,
}

/// The collateral account shared by all positions of one user.
#[derive(Clone, Copy, Debug, PartialEq, Eq, Structural)]
pub struct UserBalance {
    /// Shared collateral. A deficit (a negative value) is allowed.
    pub collateral: i128,
}

/// Everything one settlement call works on: a position, the balance that
/// backs it, and the two addresses that identify the call.
#[derive(Clone, Copy, Debug, PartialEq, Eq)]
pub struct SettleCrossMargin {
    /// Address of the position account; it names the position in the audit
    /// record.
    pub position_key: Pubkey,
    /// The position to settle.
    pub position: Position,
    /// The shared collateral that absorbs the settlement.
    pub balance: UserBalance,
    /// Address of the authority that triggered the settlement. The caller of
    /// this library has authenticated it; settlement does not look at it.
    pub authority: Pubkey,
}

/// The audit record of one settlement of an open position. It is handed to
/// the caller and never read back.
#[derive(Clone, Copy, Debug, PartialEq, Eq)]
pub struct SettlementEvent {
    /// Address of the position that was settled.
    pub position_key: Pubkey,
    /// The oracle price the position was marked to.
    pub oracle_price: i64,
    /// The funding rate the position was settled at.
    pub funding_rate: i64,
    /// Profit or loss from the price movement since the last checkpoint.
    pub unrealized_pnl: i128,
    /// Funding owed by the position since the last checkpoint.
    pub funding_payment: i128,
    /// `unrealized_pnl - funding_payment`: what was added to the collateral.
    pub net_settlement: i128,
    /// The collateral after the settlement.
    pub new_collateral: i128,
}

} // verus!
