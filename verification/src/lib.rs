//! A verified library for a Kubernetes operator that manages a
//! Kafka-partition-remapping proxy: spec validation, deterministic proxy
//! configuration rendering, child-resource manifest building, configuration
//! fingerprinting, status derivation, and the reconcile state machine.
//!
//! The surrounding runtime — the watch loop, the API-server client, the
//! metrics endpoint — lives outside this crate and hands plain observations
//! in and takes plans and statuses out.

pub mod config;
pub mod crd;
pub mod deployment;
pub mod error;
pub mod fingerprint;
pub mod manifest;
pub mod reconcile;
pub mod secrets;
pub mod service;
pub mod status;
pub mod text;
pub mod validation;
