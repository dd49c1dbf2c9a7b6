//! A minimal typed publish-subscribe session engine.
//!
//! A process joins a numbered data-distribution domain, declares one named,
//! typed channel (a topic), and either publishes periodic samples onto it or
//! subscribes and reports incoming samples, while also observing side-channel
//! status events about the channel's health.
//!
//! The crate models and verifies the orchestration logic: quality-of-service
//! policy values, dependency-ordered object creation with idempotent topic
//! declaration, the blocking discipline of `submit`, a starvation-free event
//! multiplexer, and the session state machine that drives a publisher or
//! subscriber until clean termination. Transport, discovery and byte-level
//! serialization are collaborators outside this crate: a driver performs them
//! and hands their outcomes back as plain events.

pub mod domain;
pub mod endpoint;
pub mod errors;
pub mod mux;
pub mod payload;
pub mod qos;
pub mod session;
