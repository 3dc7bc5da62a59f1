//! The filter: one lifecycle owner for the installation, one exchange filter
//! for each exchange that passes through it.

pub mod http_context;
pub mod laws;
pub mod root_context;
