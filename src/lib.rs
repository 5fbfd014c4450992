//! A deterministic harness around a Byzantine-fault-tolerant consensus engine:
//! the identifier types and their byte encodings, the validator set, the
//! signing provider, the context bindings and the orchestrator that routes
//! simulated network envelopes between peers.
pub mod address;
pub mod buffer;
pub mod certificate;
pub mod context;
pub mod decision;
pub mod height;
pub mod multi;
pub mod peer;
pub mod peer_set;
pub mod proposal;
pub mod round;
pub mod signing_provider;
pub mod signing_scheme;
pub mod simulator;
pub mod value;
pub mod vote;
