//! The governance contract: proposals posted by DAOs in posting periods,
//! voted on with bonded coins in voting periods, concluded into funding
//! grants and core slot assignments.

pub mod error;
pub mod msg;
pub mod state;
pub mod period;
pub mod contract;
pub mod slots;
pub mod submit;
pub mod query;
pub mod laws;
