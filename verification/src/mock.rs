//! A light client that checks nothing but heights. It stands in for a real
//! client where the handlers around the clients are exercised.

pub mod client_state;
pub mod types;
