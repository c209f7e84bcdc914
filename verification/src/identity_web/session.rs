//! Wallet sessions with an expiry of their own, kept by session id.
//!
//! Times are milliseconds since the Unix epoch.

use crate::system::{fresh_uuid, system_time_ms};
use crate::text_map::TextMap;
use vstd::prelude::*;
use vstd::string::StringExecFns;

verus! {

pub type SessionId = String;

/// The chain a wallet belongs to.
#[derive(Clone, Copy, Debug, PartialEq, Eq, Structural)]
pub enum Chain {
    Evm,
    Sol,
}

/// A wallet session with its time of creation and of expiry.
#[derive(Debug)]
pub struct WalletSession {
    pub session_id: SessionId,
    pub wallet_address: String,
    pub chain: Chain,
    /// Milliseconds since the Unix epoch.
    pub created_at: u64,
    /// Milliseconds since the Unix epoch.
    pub expires_at: u64,
}

impl Clone for WalletSession {
    fn clone(&self) -> (r: Self)
        ensures
            r == *self,
    {
        WalletSession {
            session_id: self.session_id.clone(),
            wallet_address: self.wallet_address.clone(),
            chain: self.chain,
            created_at: self.created_at,
            expires_at: self.expires_at,
        }
    }
}

impl WalletSession {
    /// Whether the session is expired at `now`: from the moment of expiry on.
    pub fn is_expired(&self, now: u64) -> (b: bool)
        ensures
            b == (now >= self.expires_at),
    {
        now >= self.expires_at
    }

    /// The time of expiry, in milliseconds since the Unix epoch.
    pub fn expires_at_unix_ms(&self) -> (t: u64)
        ensures
            t == self.expires_at,
    {
        self.expires_at
    }

    /// The time of creation, in milliseconds since the Unix epoch.
    pub fn created_at_ms(&self) -> (t: u64)
        ensures
            t == self.created_at,
    {
        self.created_at
    }

    /// The time of expiry, in milliseconds since the Unix epoch.
    pub fn expires_at_ms(&self) -> (t: u64)
        ensures
            t == self.expires_at,
    {
        self.expires_at
    }
}

/// The sessions by their id.
pub struct SessionStore {
    inner: TextMap<WalletSession>,
}

impl SessionStore {
    pub closed spec fn wf(&self) -> bool {
        self.inner.wf()
    }

    /// The sessions by session id.
    pub closed spec fn sessions(&self) -> Map<Seq<char>, WalletSession> {
        self.inner@
    }

    /// The text of a session id made from a fresh identifier.
    pub open spec fn session_id_text(fresh: Seq<char>) -> Seq<char> {
        "sess_"@ + fresh
    }

    /// The moment a session made at `now` with `ttl` expires, at most `u64::MAX`.
    pub open spec fn expiry_of(now: u64, ttl: u64) -> u64 {
        if now + ttl > u64::MAX {
            u64::MAX
        } else {
            (now + ttl) as u64
        }
    }

    /// What a lookup at `now` does: a live session is returned and kept,
    /// an expired one is dropped, an unknown id changes nothing.
    pub open spec fn looked_up(
        before: Map<Seq<char>, WalletSession>,
        after: Map<Seq<char>, WalletSession>,
        session_id: Seq<char>,
        now: u64,
        found: Option<WalletSession>,
    ) -> bool {
        if before.contains_key(session_id) && now < before[session_id].expires_at {
            found == Some(before[session_id]) && after == before
        } else {
            found is None && after == before.remove(session_id)
        }
    }

    /// An empty store.
    pub fn new() -> (st: Self)
        ensures
            st.wf(),
            st.sessions() == Map::<Seq<char>, WalletSession>::empty(),
    {
        SessionStore { inner: TextMap::new() }
    }

    /// Files a session for `wallet` under the id `"sess_"` + `fresh`,
    /// created at `now` and expiring `ttl` milliseconds later.
    pub fn create_session_at(&mut self, fresh: &str, wallet: String, chain: Chain, now: u64, ttl: u64) -> (r:
        WalletSession)
        requires
            old(self).wf(),
        ensures
            final(self).wf(),
            r.session_id@ == Self::session_id_text(fresh@),
            r.wallet_address == wallet,
            r.chain == chain,
            r.created_at == now,
            r.expires_at == Self::expiry_of(now, ttl),
            final(self).sessions() == old(self).sessions().insert(r.session_id@, r),
    {
        let session_id = String::from_str("sess_").concat(fresh);
        let session = WalletSession {
            session_id: session_id.clone(),
            wallet_address: wallet,
            chain,
            created_at: now,
            expires_at: now.saturating_add(ttl),
        };
        self.inner.insert(session_id, session.clone());
        session
    }

    /// Files a session for `wallet` under a fresh id, created now by the
    /// clock and expiring `ttl` milliseconds later.
    pub fn create_session(&mut self, wallet: String, chain: Chain, ttl: u64) -> (r: WalletSession)
        requires
            old(self).wf(),
        ensures
            final(self).wf(),
            r.wallet_address == wallet,
            r.chain == chain,
            r.expires_at == Self::expiry_of(r.created_at, ttl),
            final(self).sessions() == old(self).sessions().insert(r.session_id@, r),
    {
        let now = system_time_ms();
        let fresh = fresh_uuid();
        self.create_session_at(fresh.as_str(), wallet, chain, now, ttl)
    }

    /// Looks a session up at the time `now`. An expired session is
    /// dropped and not returned.
    pub fn get_at(&mut self, session_id: &str, now: u64) -> (r: Option<WalletSession>)
        requires
            old(self).wf(),
        ensures
            final(self).wf(),
            Self::looked_up(old(self).sessions(), final(self).sessions(), session_id@, now, r),
    {
        let session = match self.inner.get(session_id) {
            Some(s) => s.clone(),
            None => {
                assert(self.inner@ =~= self.inner@.remove(session_id@));
                return None;
            },
        };
        if session.is_expired(now) {
            self.inner.remove(session_id);
            return None;
        }
        Some(session)
    }

    /// Looks a session up by the clock. An expired session is dropped and
    /// not returned.
    pub fn get(&mut self, session_id: &str) -> (r: Option<WalletSession>)
        requires
            old(self).wf(),
        ensures
            final(self).wf(),
            exists|now: u64| #[trigger]
                Self::looked_up(old(self).sessions(), final(self).sessions(), session_id@, now, r),
    {
        let now = system_time_ms();
        let r = self.get_at(session_id, now);
        assert(Self::looked_up(old(self).sessions(), self.sessions(), session_id@, now, r));
        r
    }

    /// Ends a session.
    pub fn revoke(&mut self, session_id: &str)
        requires
            old(self).wf(),
        ensures
            final(self).wf(),
            final(self).sessions() == old(self).sessions().remove(session_id@),
    {
        self.inner.remove(session_id);
    }
}

} // verus!
