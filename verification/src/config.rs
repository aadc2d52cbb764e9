//! Application configuration: the data model and the serial replacement protocol.

pub mod model;
pub mod manager;
