//! Device status: the snapshot model and the Linux sampling loop.

pub mod linux;
pub mod model;
