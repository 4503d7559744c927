//! Why an artist curator request is refused.

use vstd::prelude::*;
use crate::shared::StdError;

verus! {

/// Why an artist curator request is refused.
#[derive(Clone, Debug, PartialEq, Eq)]
pub enum ContractError {
    Std(StdError),
    Unauthorized {},
    UnauthorizedTokenContract {},
    InvalidTokenReplyId {},
    Cw721NotLinked {},
    Cw721AlreadyLinked {},
    ApprovedExceeded {},
    ApprovalExpired {},
    UserAlreadyArtist {},
}

} // verus!
