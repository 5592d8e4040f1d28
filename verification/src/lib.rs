//! Validation and execution logic of an inter-blockchain communication stack:
//! light-client verification, Merkle proof verification against a trusted
//! commitment root, and the client update and channel handshake handlers
//! that are built on them.
//!
//! Every executable function carries a contract that Verus proves. Calls into
//! other crates are confined to small functions marked
//! `#[verifier::external_body]`, whose contracts are assumed.

pub mod height;
pub mod timestamp;
pub mod identifier;
pub mod error;
pub mod bytes;
pub mod commitment;
pub mod proof_types;
pub mod ics23_calls;
pub mod merkle;
pub mod merkle_laws;
pub mod ics07_tendermint;
pub mod mock;
pub mod any;
pub mod channel;
pub mod connection;
pub mod events;
pub mod context;
pub mod client_state;
pub mod dispatch;
pub mod msgs;
pub mod update_client;
pub mod chan_open_try;
pub mod amount;
pub mod acknowledgement;
pub mod client_laws;
pub mod wire;
