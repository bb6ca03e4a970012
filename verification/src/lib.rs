//! Coordination core of a distributed HTTP load generator.
//!
//! The crate models and verifies the coordination discipline of the
//! generator: admitting experiment definitions into a monotonically growing
//! registry, synthesizing batches of queries sized to a generation window,
//! fanning batches out through a bounded broadcast channel with per-subscriber
//! cursors, and binding one long-lived worker to each configured host.
//! Query synthesis policy, request execution, configuration loading and
//! metrics exposition are collaborators of the embedding program; the core
//! only decides what to do and in what order.

pub mod batch;
pub mod channel;
pub mod cycle;
pub mod experiment;
pub mod hosts;
pub mod receiver;
