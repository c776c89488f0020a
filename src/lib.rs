//! Settlement of prepared order responses that never went through an auction
//! ("no-auction" path), routed through a burn-and-mint bridge.

pub mod error;
pub mod fees;
pub mod fill;
pub mod laws;
pub mod ledger;
pub mod settle;
pub mod state;
