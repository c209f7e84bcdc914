//! Login nonces and wallet sessions.
//!
//! A nonce is issued under a fresh session id and can be taken once. A
//! verified wallet is then bound to the session id; the session is valid
//! for a fixed time and is dropped when it is looked up after that.

use crate::system::{fresh_uuid, unix_now};
use crate::text_map::TextMap;
use vstd::prelude::*;

verus! {

/// How long a wallet session is valid, in seconds.
pub const SESSION_TTL_SECONDS: i64 = 60 * 60 * 24;

/// `x`, held to the range of `i64`.
pub open spec fn clamp_i64(x: int) -> int {
    if x > i64::MAX {
        i64::MAX as int
    } else if x < i64::MIN {
        i64::MIN as int
    } else {
        x
    }
}

/// A wallet bound to a session.
#[derive(Debug)]
pub struct WalletSession {
    pub wallet: String,
    pub chain: String,
    /// Unix time of creation, in seconds.
    pub created_at: i64,
}

impl Clone for WalletSession {
    fn clone(&self) -> (r: Self)
        ensures
            r == *self,
    {
        WalletSession { wallet: self.wallet.clone(), chain: self.chain.clone(), created_at: self.created_at }
    }
}

impl WalletSession {
    /// The time of expiry: creation plus the time to live, at most `i64::MAX`.
    pub open spec fn expiry(&self) -> int {
        clamp_i64(self.created_at + SESSION_TTL_SECONDS)
    }

    /// Whether the session is expired at `now`.
    pub open spec fn expired_at(&self, now: i64) -> bool {
        now >= self.expiry()
    }

    /// Unix time, in seconds, at which the session expires.
    pub fn expires_at(&self) -> (t: i64)
        ensures
            t == self.expiry(),
    {
        if self.created_at > i64::MAX - SESSION_TTL_SECONDS {
            i64::MAX
        } else {
            self.created_at + SESSION_TTL_SECONDS
        }
    }

    /// Whether the session is expired at the time `now`.
    pub fn is_expired_at(&self, now: i64) -> (b: bool)
        ensures
            b == self.expired_at(now),
    {
        now >= self.expires_at()
    }

    /// Whether the session is expired by the clock.
    pub fn is_expired(&self) -> (b: bool)
        ensures
            exists|now: i64| b == #[trigger] self.expired_at(now),
    {
        let now = unix_now();
        let b = self.is_expired_at(now);
        assert(b == self.expired_at(now));
        b
    }

    /// The time of creation in milliseconds, held to the range of `i64`.
    pub fn created_at_ms(&self) -> (t: i64)
        ensures
            t == clamp_i64(self.created_at * 1000),
    {
        seconds_to_ms(self.created_at)
    }

    /// The time of expiry in milliseconds, held to the range of `i64`.
    pub fn expires_at_ms(&self) -> (t: i64)
        ensures
            t == clamp_i64(self.expiry() * 1000),
    {
        seconds_to_ms(self.expires_at())
    }
}

/// Seconds as milliseconds, held to the range of `i64`.
pub fn seconds_to_ms(seconds: i64) -> (ms: i64)
    ensures
        ms == clamp_i64(seconds * 1000),
{
    if seconds > i64::MAX / 1000 {
        i64::MAX
    } else if seconds < i64::MIN / 1000 {
        i64::MIN
    } else {
        seconds * 1000
    }
}

/// Whether `k` is among the first `n` keys.
spec fn seen(keys: Seq<String>, n: int, k: Seq<char>) -> bool {
    exists|j: int| 0 <= j < n && (#[trigger] keys[j])@ == k
}

/// The nonces waiting to be signed and the sessions that were bound.
pub struct AuthState {
    nonces: TextMap<String>,
    sessions: TextMap<WalletSession>,
}

impl AuthState {
    /// Both stores are well formed.
    pub closed spec fn wf(&self) -> bool {
        self.nonces.wf() && self.sessions.wf()
    }

    /// The nonces by session id.
    pub closed spec fn nonces(&self) -> Map<Seq<char>, String> {
        self.nonces@
    }

    /// The sessions by session id.
    pub closed spec fn sessions(&self) -> Map<Seq<char>, WalletSession> {
        self.sessions@
    }

    /// The sessions left when those expired at `now` are dropped.
    pub open spec fn live_sessions(sessions: Map<Seq<char>, WalletSession>, now: i64) -> Map<
        Seq<char>,
        WalletSession,
    > {
        sessions.restrict(Set::new(|sid: Seq<char>| sessions.contains_key(sid) && !sessions[sid].expired_at(now)))
    }

    /// What a lookup at `now` does: a live session is returned and kept,
    /// an expired one is dropped, an unknown id changes nothing.
    pub open spec fn looked_up(
        before: Map<Seq<char>, WalletSession>,
        after: Map<Seq<char>, WalletSession>,
        sid: Seq<char>,
        now: i64,
        found: Option<WalletSession>,
    ) -> bool {
        if before.contains_key(sid) && !before[sid].expired_at(now) {
            found == Some(before[sid]) && after == before
        } else {
            found is None && after == before.remove(sid)
        }
    }

    /// A state with no nonce and no session.
    pub fn new() -> (st: Self)
        ensures
            st.wf(),
            st.nonces() == Map::<Seq<char>, String>::empty(),
            st.sessions() == Map::<Seq<char>, WalletSession>::empty(),
    {
        AuthState { nonces: TextMap::new(), sessions: TextMap::new() }
    }

    /// Files a nonce under a session id.
    pub fn put_nonce(&mut self, sid: String, nonce: String)
        requires
            old(self).wf(),
        ensures
            final(self).wf(),
            final(self).nonces() == old(self).nonces().insert(sid@, nonce),
            final(self).sessions() == old(self).sessions(),
    {
        self.nonces.insert(sid, nonce);
    }

    /// Issues a fresh session id with a fresh nonce, and files the nonce
    /// under the id. Returns `(session id, nonce)`.
    pub fn create_nonce(&mut self) -> (r: (String, String))
        requires
            old(self).wf(),
        ensures
            final(self).wf(),
            final(self).nonces() == old(self).nonces().insert(r.0@, r.1),
            final(self).sessions() == old(self).sessions(),
    {
        let sid = fresh_uuid();
        let nonce = fresh_uuid();
        self.put_nonce(sid.clone(), nonce.clone());
        (sid, nonce)
    }

    /// Takes the nonce of a session id; it can be taken once.
    pub fn take_nonce(&mut self, sid: &str) -> (r: Option<String>)
        requires
            old(self).wf(),
        ensures
            final(self).wf(),
            final(self).nonces() == old(self).nonces().remove(sid@),
            final(self).sessions() == old(self).sessions(),
            match r {
                Some(n) => old(self).nonces().contains_key(sid@) && n == old(self).nonces()[sid@],
                None => !old(self).nonces().contains_key(sid@),
            },
    {
        self.nonces.remove(sid)
    }

    /// Binds a verified wallet to a session id, created at `now`.
    pub fn bind_wallet_at(&mut self, sid: String, wallet: String, chain: &str, now: i64)
        requires
            old(self).wf(),
        ensures
            final(self).wf(),
            final(self).nonces() == old(self).nonces(),
            final(self).sessions().dom() == old(self).sessions().dom().insert(sid@),
            forall|other: Seq<char>|
                other != sid@ && old(self).sessions().contains_key(other) ==> final(self).sessions()[other] == old(
                    self,
                ).sessions()[other],
            final(self).sessions()[sid@].wallet == wallet,
            final(self).sessions()[sid@].chain@ == chain@,
            final(self).sessions()[sid@].created_at == now,
    {
        let session = WalletSession { wallet, chain: chain.to_owned(), created_at: now };
        self.sessions.insert(sid, session);
    }

    /// Binds a verified wallet to a session id, created now by the clock.
    pub fn bind_wallet(&mut self, sid: String, wallet: String, chain: &str)
        requires
            old(self).wf(),
        ensures
            final(self).wf(),
            final(self).nonces() == old(self).nonces(),
            final(self).sessions().dom() == old(self).sessions().dom().insert(sid@),
            forall|other: Seq<char>|
                other != sid@ && old(self).sessions().contains_key(other) ==> final(self).sessions()[other] == old(
                    self,
                ).sessions()[other],
            final(self).sessions()[sid@].wallet == wallet,
            final(self).sessions()[sid@].chain@ == chain@,
    {
        let now = unix_now();
        self.bind_wallet_at(sid, wallet, chain, now);
    }

    /// Looks a session up at the time `now`. An expired session is
    /// dropped and not returned.
    pub fn get_session_at(&mut self, sid: &str, now: i64) -> (r: Option<WalletSession>)
        requires
            old(self).wf(),
        ensures
            final(self).wf(),
            final(self).nonces() == old(self).nonces(),
            Self::looked_up(old(self).sessions(), final(self).sessions(), sid@, now, r),
    {
        let session = match self.sessions.get(sid) {
            Some(s) => s.clone(),
            None => {
                assert(self.sessions@ =~= self.sessions@.remove(sid@));
                return None;
            },
        };
        if session.is_expired_at(now) {
            self.sessions.remove(sid);
            return None;
        }
        Some(session)
    }

    /// Looks a session up by the clock. An expired session is dropped and
    /// not returned.
    pub fn get_session(&mut self, sid: &str) -> (r: Option<WalletSession>)
        requires
            old(self).wf(),
        ensures
            final(self).wf(),
            final(self).nonces() == old(self).nonces(),
            exists|now: i64| #[trigger] Self::looked_up(old(self).sessions(), final(self).sessions(), sid@, now, r),
    {
        let now = unix_now();
        let r = self.get_session_at(sid, now);
        assert(Self::looked_up(old(self).sessions(), self.sessions(), sid@, now, r));
        r
    }

    /// Ends a session.
    pub fn revoke_session(&mut self, sid: &str)
        requires
            old(self).wf(),
        ensures
            final(self).wf(),
            final(self).nonces() == old(self).nonces(),
            final(self).sessions() == old(self).sessions().remove(sid@),
    {
        self.sessions.remove(sid);
    }

    /// Drops every session that is expired at `now`.
    pub fn cleanup_sessions_at(&mut self, now: i64)
        requires
            old(self).wf(),
        ensures
            final(self).wf(),
            final(self).nonces() == old(self).nonces(),
            final(self).sessions() == Self::live_sessions(old(self).sessions(), now),
    {
        let keys = self.sessions.keys();
        let ghost before = self.sessions@;
        let mut i: usize = 0;
        while i < keys.len()
            invariant
                i <= keys.len(),
                self.wf(),
                self.nonces() == old(self).nonces(),
                before == old(self).sessions(),
                forall|k: Seq<char>| #[trigger]
                    self.sessions@.contains_key(k) <==> before.contains_key(k) && !(before[k].expired_at(now)
                        && seen(keys@, i as int, k)),
                forall|k: Seq<char>| #[trigger] self.sessions@.contains_key(k) ==> self.sessions@[k] == before[k],
            decreases keys.len() - i,
        {
            let expired = match self.sessions.get(keys[i].as_str()) {
                Some(s) => s.is_expired_at(now),
                None => false,
            };
            if expired {
                self.sessions.remove(keys[i].as_str());
            }
            proof {
                let ki = keys@[i as int]@;
                assert forall|k: Seq<char>| seen(keys@, i as int + 1, k) <==> (seen(keys@, i as int, k) || k == ki) by {
                    if seen(keys@, i as int + 1, k) {
                        let j = choose|j: int| 0 <= j < i + 1 && (#[trigger] keys@[j])@ == k;
                        if j < i {
                            assert(seen(keys@, i as int, k));
                        }
                    }
                    if seen(keys@, i as int, k) {
                        let j = choose|j: int| 0 <= j < i && (#[trigger] keys@[j])@ == k;
                        assert(0 <= j < i + 1 && keys@[j]@ == k);
                    }
                    if k == ki {
                        assert(0 <= i < i + 1 && keys@[i as int]@ == k);
                    }
                }
            }
            i += 1;
        }
        proof {
            assert forall|k: Seq<char>| before.contains_key(k) implies seen(keys@, keys@.len() as int, k) by {
                let j = choose|j: int| 0 <= j < keys@.len() && (#[trigger] keys@[j])@ == k;
                assert(0 <= j < keys@.len() && keys@[j]@ == k);
            }
            assert(self.sessions@ =~= Self::live_sessions(before, now));
        }
    }

    /// Drops every session that is expired by the clock.
    pub fn cleanup_sessions(&mut self)
        requires
            old(self).wf(),
        ensures
            final(self).wf(),
            final(self).nonces() == old(self).nonces(),
            exists|now: i64| final(self).sessions() == #[trigger] Self::live_sessions(old(self).sessions(), now),
    {
        let now = unix_now();
        self.cleanup_sessions_at(now);
        assert(self.sessions() == Self::live_sessions(old(self).sessions(), now));
    }
}

} // verus!
