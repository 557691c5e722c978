//! Performance-counter sampling for the MMDC memory controller of i.MX6
//! class SoCs: the register window's offset table, the freeze/read/reset
//! protocol of a measurement cycle, and the derivation of bandwidth and
//! utilization figures from raw counter snapshots.

pub mod engine;
pub mod hex;
pub mod ident;
pub mod layout;
pub mod metrics;
pub mod regs;
