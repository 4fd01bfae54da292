//! A read-only call engine for on-chain RISC-V scripts: the `0x` hex wire
//! codec, the stable error taxonomy, the execution context that is filled
//! once per field on demand, the decision for each syscall, the outcome of a
//! run, and the JSON-RPC requests sent to a chain node.

pub mod error;
pub mod codec;
pub mod numeral;
pub mod types;
pub mod engine;
pub mod dispatch;
pub mod client;
