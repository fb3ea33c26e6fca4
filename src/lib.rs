//! A host-monitoring agent's core: plugins that each sample one facet of the
//! host on a fixed period and turn what they read into named metrics.
//!
//! The library takes every decision and leaves the effects to its host
//! program: a plugin's scheduler says when to sample and when to sleep, and
//! the host performs the action and reports back. The first sample of every
//! plugin comes at once on start; a failed sample stops that plugin only.

pub mod config;
pub mod metrics;
pub mod plugins;
pub mod runner;
pub mod scheduler;
