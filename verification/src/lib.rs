//! Binary outcome markets settled against Pyth price updates: market state, the rules of
//! every instruction, the token program calls they make, and the properties that hold
//! across instructions.

pub mod constants;
pub mod error;
pub mod state;
pub mod oracle;
pub mod events;
pub mod token;
pub mod instructions;
pub mod ledger;
pub mod laws;
pub mod backing;
pub mod rules;
