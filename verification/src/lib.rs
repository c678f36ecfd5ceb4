//! Round-trip arbitrage pipeline: profitability rule, instruction assembly,
//! lookup-table resolution, transaction building and bundle framing.

pub mod profit;
pub mod cycle;
pub mod types;
pub mod instruction;
pub mod lookup;
pub mod sdk;
pub mod transaction;
pub mod bundle;
pub mod bot;
