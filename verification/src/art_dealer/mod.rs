//! The art dealer contract's messages, stored state and errors.

pub mod error;
pub mod msg;
pub mod state;
