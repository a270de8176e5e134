//! Three on-chain programs, each with one instruction, `initialize`, that
//! takes no accounts, always succeeds and logs one fixed line.
//!
//! The programs share nothing. Each module holds its program's address, the
//! empty accounts of its instruction, and the handler, which is a pure
//! function: it hands back the line to log and leaves the logging to the
//! caller that runs under the Solana runtime.

pub mod error;
pub mod memecoin_factory;
pub mod optik_dex;
pub mod optik_token;
