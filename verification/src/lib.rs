//! Settlement of a cross-margin perpetual-futures position against a shared
//! collateral balance, with every state transition stated and proved.

pub mod error;
pub mod laws;
pub mod settlement;
pub mod state;

pub use error::SettlementError;
pub use settlement::settle_cross_margin;
pub use state::{Position, SettleCrossMargin, SettlementEvent, UserBalance};
