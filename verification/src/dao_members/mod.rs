//! The DAO membership contract: members and their voting weights, with the
//! rules a DAO holding a core slot must keep.

pub mod error;
pub mod msg;
pub mod state;
pub mod members;
pub mod contract;
pub mod laws;
