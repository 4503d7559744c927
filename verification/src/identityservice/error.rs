//! Why an identity request is refused.

use vstd::prelude::*;
use crate::shared::StdError;

verus! {

/// Why an identity request is refused.
#[derive(Clone, Debug, PartialEq, Eq)]
pub enum ContractError {
    Std(StdError),
    AlreadyRegistered {},
    NameTaken { name: String },
    NameTooShort { length: u64, min_length: u64 },
    NameTooLong { length: u64, max_length: u64 },
    InvalidCharacter { c: char },
}

} // verus!
