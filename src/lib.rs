//! Transaction lifecycle and latency engine: nonce sequencing, fee policy,
//! a bounded ledger of submitted transactions, confirmation polling, latency
//! statistics and the speculative application of confirmed moves.
pub mod engine;
pub mod fee;
pub mod game;
pub mod inflight;
pub mod latency;
pub mod method;
pub mod ledger;
pub mod nonce;
pub mod poller;
pub mod rpc;
