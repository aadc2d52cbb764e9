//! Decisions of the web service: the JSON API answers and the embedded front end.

pub mod frontend;
pub mod api;
