//! Why a distribution request is refused.

use vstd::prelude::*;
use crate::shared::StdError;

verus! {

/// Why a distribution request is refused.
#[derive(Clone, Debug, PartialEq, Eq)]
pub enum ContractError {
    Std(StdError),
    Unauthorized {},
    GrantNotFound {},
    AlreadyClaimed {},
    AmountTooSmall {},
}

} // verus!
