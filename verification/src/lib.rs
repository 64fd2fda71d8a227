//! Discovers a home-router gateway on the local network, reads its device
//! identity over a vendor HTTP management API, derives a one-time credential
//! from that identity and an operator password, and drives the submission
//! that unlocks the hidden administrative service.
//!
//! The crate holds the protocol's logic: ordered candidate resolution, the
//! tolerant response-envelope normalizer, response classification, credential
//! derivation, and the orchestrating state machine. The surrounding program
//! performs the transport and the prompting and feeds the results back in.

pub mod client;
pub mod credential;
pub mod envelope;
pub mod errors;
pub mod json;
pub mod machine;
pub mod resolve;
