//! Client-side workflow for provisioning and invoking a counter program on a
//! remote ledger cluster: fee estimation, conditional funding of the payer,
//! deterministic seed-based derivation of the data account's address,
//! idempotent account creation, single-instruction invocation, and typed
//! decoding of the program's on-chain record.
//!
//! All cluster I/O is performed by an unverified driver; this library holds
//! the decisions (what to request next, how much to fund, whether to create)
//! and the pure computations (fees, addresses, the record's byte layout).

pub mod address;
pub mod fees;
pub mod state;
pub mod workflow;
