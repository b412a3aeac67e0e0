//! A minimal on-chain program entrypoint for a ledger execution environment.
//!
//! One invocation hands the handler a program identity, a list of account
//! references and an instruction payload. The handler reads only the
//! identity: it composes the single diagnostic line for the host's logging
//! channel and returns success, unconditionally. There is no other behavior:
//! no account validation, no payload parsing, no state.

pub mod handler;
pub mod identity;
