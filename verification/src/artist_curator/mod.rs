//! The artist curator contract: approved DAOs mint artist tokens within
//! their approval, and artists mint art.

pub mod error;
pub mod msg;
pub mod state;
pub mod contract;
pub mod laws;
