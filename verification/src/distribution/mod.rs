//! The distribution contract: grants approved by governance, paid out to
//! DAOs in proportion to the time elapsed since they started.

pub mod error;
pub mod msg;
pub mod state;
pub mod contract;
pub mod laws;
