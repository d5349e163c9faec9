//! The authorizer's decision core: how the authority service's answer — or
//! its failure to answer — resolves into a permission verdict.

use vstd::prelude::*;

use crate::error::{AuthorityFailure, ServiceError};
use crate::models::AuthorizationReply;

verus! {

/// Resolves the authority round trip into a verdict. The policy fails
/// closed: when the privilege-check call itself fails at the transport, the
/// verdict is "not authorized" rather than an error, so that an absent
/// authority can never be read as permission. Only a reply whose shape
/// cannot be decoded propagates as an error carrying the decoder's own
/// failure.
pub fn resolve_authority_reply(reply: Result<AuthorizationReply, AuthorityFailure>) -> (r: Result<
    bool,
    ServiceError,
>)
    ensures
        reply matches Ok(rep) ==> r == Ok::<bool, ServiceError>(rep.is_authorized),
        reply matches Err(AuthorityFailure::Transport(_)) ==> r == Ok::<bool, ServiceError>(false),
        reply matches Err(AuthorityFailure::Deserialize(d)) ==> r == Err::<bool, ServiceError>(
            ServiceError::ZbusError(d),
        ),
{
    match reply {
        Ok(rep) => Ok(rep.is_authorized),
        Err(AuthorityFailure::Transport(_)) => Ok(false),
        Err(AuthorityFailure::Deserialize(e)) => Err(ServiceError::ZbusError(e)),
    }
}

} // verus!
