//! Instruction codecs and account schemas for invoking on-chain exchange
//! programs: byte-exact payloads, ordered capability-tagged account lists,
//! and fixed-offset readers for the programs' account state.

pub mod account;
pub mod address;
pub mod codec;
pub mod humidifi;
pub mod solfi_v2;
pub mod registry;
