//! The light client for chains that run Tendermint consensus.

pub mod calls;
pub mod client_state;
pub mod client_traits;
pub mod error;
pub mod misbehaviour;
pub mod types;
