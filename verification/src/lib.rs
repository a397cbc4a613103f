//! Abuse-gating core of a testnet token faucet.
//!
//! The library holds the verified logic of the service: a self-expiring store
//! of proof-of-human math challenges, a per-identity rate limiter with a
//! 24-hour window, the periodic sweeps of both stores, and the ordered gate
//! pipeline that a grant request passes before any tokens move. The HTTP
//! surface and the ledger client live outside; they hand this crate plain
//! values and take plain values back.

pub mod challenge;
pub mod error;
pub mod keypair_file;
pub mod pipeline;
pub mod rate_limit;
pub mod recipient;
pub mod store_map;
pub mod text;
