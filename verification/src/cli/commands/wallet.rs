//! The wallet commands.

use vstd::prelude::*;

verus! {

/// The identity the command line acts under.
pub fn default_wallet_id() -> (id: String)
    ensures
        id@ == "local-owner"@,
{
    "local-owner".to_owned()
}

} // verus!
