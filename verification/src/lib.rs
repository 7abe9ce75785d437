//! Pack state machine and distribution engine for bundled digital collectibles.
//!
//! A pack set groups weighted cards and redeemable vouchers. Holders prove that
//! they own vouchers and then claim a card that is selected by weight from a
//! recorded seed. Every function here works on plain values and carries a
//! contract that Verus proves.

pub mod account;
pub mod address;
pub mod codec;
pub mod cpi;
pub mod distribution;
pub mod error;
pub mod instruction;
pub mod math;
pub mod processor;
pub mod state;
pub mod utils;
