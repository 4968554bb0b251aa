//! An on-chain staking program: a shared pool account and per-user staking
//! accounts, managed through a small instruction set.
//!
//! The library holds the verified core: the binary account schemas, the
//! instruction wire format, per-user address derivation, and the instruction
//! processor that validates and mutates account state. The host runtime
//! (account loading, signature verification, rent, the allocation syscall)
//! stays outside; the processor works on plain account values that the host
//! adapter hands in.

pub mod codec;
pub mod derivation;
pub mod error;
pub mod instruction;
pub mod processor;
pub mod state;
