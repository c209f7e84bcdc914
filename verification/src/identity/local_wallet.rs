//! The wallet kept on this machine.

use vstd::prelude::*;

verus! {

/// The identifier of the wallet that is made when none exists.
pub const DEFAULT_WALLET_ID: &'static str = "local-dev-wallet";

/// A local wallet, known by its identifier.
#[derive(Debug)]
pub struct LocalWallet {
    pub id: String,
}

impl Clone for LocalWallet {
    fn clone(&self) -> (r: Self)
        ensures
            r == *self,
    {
        LocalWallet { id: self.id.clone() }
    }
}

impl LocalWallet {
    /// A new wallet. The passphrase plays no part; the caller stores the
    /// wallet.
    pub fn generate(_passphrase: &str) -> (w: Self)
        ensures
            w.id@ == DEFAULT_WALLET_ID@,
    {
        LocalWallet { id: DEFAULT_WALLET_ID.to_owned() }
    }

    /// The identity under which this wallet acts.
    pub fn actor_id(&self) -> (id: String)
        ensures
            id@ == self.id@,
    {
        self.id.clone()
    }

    /// The identity to act under: the wallet's, or the default where no
    /// wallet could be loaded.
    pub fn actor_or_default(loaded: Option<&LocalWallet>) -> (id: String)
        ensures
            id@ == match loaded {
                Some(w) => w.id@,
                None => DEFAULT_WALLET_ID@,
            },
    {
        match loaded {
            Some(w) => w.actor_id(),
            None => DEFAULT_WALLET_ID.to_owned(),
        }
    }
}

} // verus!
