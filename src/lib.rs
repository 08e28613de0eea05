//! Checks a time-tracking client's configuration: which server it points at,
//! whether the address and the API key have the shape that server expects,
//! and what to report for each step.

pub mod text;
pub mod host;
pub mod api_key;
pub mod endpoint;
pub mod settings;
pub mod report;
pub mod doctor;
pub mod heartbeat;
pub mod guarantees;
