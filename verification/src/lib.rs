//! Decision logic of a stress harness that drives the lifecycle of cloud
//! resources (instances, disks, snapshots) against a remote control plane.
//!
//! The library decides; a driver performs. Every remote call, delay and
//! channel operation is described here as a value that the driver carries out,
//! and every outcome comes back as a value.

pub mod actor;
pub mod client;
pub mod config;
pub mod harness;
pub mod util;
