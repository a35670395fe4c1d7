//! A three-party escrow state machine.
//!
//! A buyer deposits a fixed amount of value that is later released either to
//! the seller (the deal completes) or back to the buyer (the deal is
//! cancelled), paying a fixed fee to the notary in either case. The machine
//! holds only the fixed configuration (cost and the three party identities)
//! plus an explicit lifecycle phase; the ledger that actually holds balances,
//! the caller identity, the amount attached to a call, and the execution of
//! transfer instructions are all supplied by the host environment as plain
//! values.

pub mod contract;
pub mod errors;
