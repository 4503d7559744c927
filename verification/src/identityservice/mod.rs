//! The identity service: unique names for users and DAOs, and the setup of a
//! DAO's membership and multisig contracts.

pub mod error;
pub mod msg;
pub mod state;
pub mod contract;
pub mod laws;
