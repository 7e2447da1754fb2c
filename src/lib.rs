//! Client library for submitting analytics capture events to an ingestion service.
//!
//! The library holds the event model, credential resolution, the wire envelope and
//! the decisions of the capture client; the network, the environment and the secret
//! store are reached by the caller, which hands the results back as plain values.
pub mod error;
pub mod properties;
pub mod event;
pub mod wire;
pub mod credentials;
pub mod client;
pub mod batch;
