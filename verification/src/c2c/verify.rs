//! What an event needs before it is accepted.

use crate::c2c::types::C2CEvent;
use crate::error::AppError;
use crate::text::{trim, trimmed_of};
use vstd::prelude::*;

verus! {

/// Accepts an event that names its actor and carries a signature. The
/// signature itself is not checked.
///
/// An event whose actor is empty once trimmed is refused first, then one
/// without a signature; both with a `BadRequest` error.
pub fn verify_event(ev: &C2CEvent) -> (r: Result<(), AppError>)
    ensures
        match r {
            Ok(_) => trimmed_of(ev.actor_wallet@).len() > 0 && ev.signature_b64 is Some,
            Err(e) => {
                &&& e is BadRequest
                &&& if trimmed_of(ev.actor_wallet@).len() == 0 {
                    e.detail() == "Missing actor wallet identifier"@
                } else {
                    ev.signature_b64 is None && e.detail() == "Event is missing signature"@
                }
            },
        },
{
    if trim(ev.actor_wallet.as_str()).is_empty() {
        return Err(AppError::BadRequest("Missing actor wallet identifier".to_owned()));
    }
    if ev.signature_b64.is_none() {
        return Err(AppError::BadRequest("Event is missing signature".to_owned()));
    }
    Ok(())
}

} // verus!
