//! Account-context validation and instruction dispatch for an on-chain
//! program: an entrypoint receives a serialized instruction payload and a
//! list of untrusted account references, matches the payload's discriminator
//! against a registry of instruction descriptors, validates the accounts
//! against the matched descriptor's declared constraints, and runs the bound
//! handler.

pub mod account;
pub mod bytes;
pub mod codec;
pub mod dispatch;
pub mod errors;
pub mod pda;
pub mod program;
pub mod sha256;
pub mod validate;
