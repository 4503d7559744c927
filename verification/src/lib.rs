//! Verified core of the JMES governance contracts: proposal life cycle and
//! voting periods, core slots, grants distribution, DAO membership rules,
//! identity registration and artist curation, each stated over plain values.

pub mod math;
pub mod shared;
pub mod governance;
pub mod identityservice;
pub mod distribution;
pub mod dao_members;
pub mod art_dealer;
pub mod artist_curator;
