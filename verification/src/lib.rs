//! Verified core of the Milk-V Duo S management daemon: the configuration
//! model and its serial replacement protocol, the device status snapshots and
//! their sampling loop, and the decisions behind the JSON API and the
//! embedded web front end.

pub mod config;
pub mod status;
pub mod web;
