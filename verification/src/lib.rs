//! Collateral-backed synthetic-asset accounting engine.
//!
//! The crate holds the state-transition rules of the protocol: minting a
//! pegged token against deposited collateral, liquidating
//! under-collateralized positions, a staking program with time-locked rewards,
//! and a governance process that adjusts the global risk parameters.
//!
//! Every operation is a verified function from the entity states and plain
//! arguments to the new states plus an event value. Token movements are not
//! performed here: an operation returns the event that says what the external
//! token ledger must mint or transfer, and the host around this crate carries
//! it out. All arithmetic on money-like quantities is checked; a failing
//! operation returns a specific error and leaves every entity unchanged.

pub mod errors;
pub mod events;
pub mod governance;
pub mod position;
pub mod registry;
pub mod staking;
pub mod state;
