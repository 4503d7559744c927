//! Why an art dealer request is refused.

use vstd::prelude::*;
use crate::shared::StdError;

verus! {

/// Why an art dealer request is refused.
#[derive(Clone, Debug, PartialEq, Eq)]
pub enum ContractError {
    Std(StdError),
    Unauthorized {},
    SoldOut {},
    UnauthorizedTokenContract {},
    Uninitialized {},
    WrongPaymentAmount {},
    InvalidTokenReplyId {},
    Cw721NotLinked {},
    Cw721AlreadyLinked {},
    ApprovedExceeded {},
    ApprovalExpired {},
    DealerNotApproved {},
}

} // verus!
