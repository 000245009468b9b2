//! Session credentials with dual (idle and absolute) expiry.

use dashmap::DashMap;
use vstd::prelude::*;

use crate::error::AuthError;

verus! {

/// A session unused for this long (milliseconds) is expired.
pub const IDLE_TTL_MS: u64 = 30 * 60 * 1000;

/// A session older than this (milliseconds) is expired, however often it is used.
pub const ABSOLUTE_TTL_MS: u64 = 24 * 60 * 60 * 1000;

/// Expiry bookkeeping of one session, in milliseconds of a monotonic clock.
#[derive(Debug, Clone, Copy, PartialEq, Eq, Structural)]
pub struct TokenExpiry {
    /// Last successful validation; an unused session expires after the idle TTL.
    pub last_used: u64,
    /// Issue time; every session expires after the absolute TTL.
    pub issued: u64,
}

/// A session credential: 512 random bits, as eight little-endian words.
pub type Credential = [u64; 8];

type SessionMap = DashMap<Credential, TokenExpiry>;

/// What the session map holds.
pub uninterp spec fn session_entries(m: SessionMap) -> Map<Credential, TokenExpiry>;

/// Relies on `DashMap::new`: a new map is empty.
#[verifier::external_body]
fn session_map_new() -> (m: SessionMap)
    ensures
        session_entries(m).dom() == Set::<Credential>::empty(),
{
    DashMap::new()
}

/// Relies on `DashMap::get`: the value stored under the key, if any.
#[verifier::external_body]
fn session_map_get(m: &SessionMap, c: &Credential) -> (r: Option<TokenExpiry>)
    ensures
        r == (if session_entries(*m).contains_key(*c) {
            Some(session_entries(*m)[*c])
        } else {
            None::<TokenExpiry>
        }),
{
    m.get(c).map(|e| *e.value())
}

/// Relies on `DashMap::insert`: the key maps to the value afterwards, other keys are untouched.
#[verifier::external_body]
fn session_map_insert(m: &mut SessionMap, c: Credential, e: TokenExpiry)
    ensures
        session_entries(*final(m)) == session_entries(*old(m)).insert(c, e),
{
    m.insert(c, e);
}

/// Relies on `DashMap::remove`: the key is absent afterwards, other keys are untouched.
#[verifier::external_body]
fn session_map_remove(m: &mut SessionMap, c: &Credential)
    ensures
        session_entries(*final(m)) == session_entries(*old(m)).remove(*c),
{
    m.remove(c);
}

/// Relies on `rand::random`: 512 bits drawn from the thread-local CSPRNG.
#[verifier::external_body]
fn random_credential() -> Credential {
    rand::random()
}

/// Whether a session with bookkeeping `e` may still be used at time `now`.
pub open spec fn session_live(e: TokenExpiry, now: u64) -> bool {
    &&& now - e.issued <= ABSOLUTE_TTL_MS
    &&& now - e.last_used <= IDLE_TTL_MS
}

/// The bookkeeping after a successful use at `now`. A reading earlier than
/// the last use never moves the idle window back.
pub open spec fn touched(e: TokenExpiry, now: u64) -> TokenExpiry {
    TokenExpiry { last_used: if now >= e.last_used { now } else { e.last_used }, issued: e.issued }
}

/// The store after `validate_and_touch(c)` at `now`.
pub open spec fn validate_next(
    m: Map<Credential, TokenExpiry>,
    c: Credential,
    now: u64,
) -> Map<Credential, TokenExpiry> {
    if !m.contains_key(c) {
        m
    } else if !session_live(m[c], now) {
        m.remove(c)
    } else {
        m.insert(c, touched(m[c], now))
    }
}

/// The answer of `validate_and_touch(c)` at `now`.
pub open spec fn validate_result(
    m: Map<Credential, TokenExpiry>,
    c: Credential,
    now: u64,
) -> Result<(), AuthError> {
    if !m.contains_key(c) {
        Err(AuthError::UnknownCredential)
    } else if !session_live(m[c], now) {
        Err(AuthError::SessionExpired)
    } else {
        Ok(())
    }
}

/// Every session was last used no earlier than it was issued.
pub open spec fn sessions_wf(m: Map<Credential, TokenExpiry>) -> bool {
    forall|c: Credential| #[trigger] m.contains_key(c) ==> m[c].issued <= m[c].last_used
}

/// The process-wide table of issued session credentials.
///
/// Every operation takes `&mut self`, so a check and the renewal or removal
/// it decides on happen as one step; callers that serve requests
/// concurrently share the store behind a lock.
pub struct SessionStore {
    tokens: SessionMap,
}

impl View for SessionStore {
    type V = Map<Credential, TokenExpiry>;

    closed spec fn view(&self) -> Map<Credential, TokenExpiry> {
        session_entries(self.tokens)
    }
}

impl SessionStore {
    /// An empty store.
    pub fn new() -> (s: Self)
        ensures
            s@ == Map::<Credential, TokenExpiry>::empty(),
            sessions_wf(s@),
    {
        let s = SessionStore { tokens: session_map_new() };
        assert(s@ =~= Map::<Credential, TokenExpiry>::empty());
        s
    }

    /// Makes `c` a valid credential issued at `now`.
    pub fn issue_with(&mut self, c: Credential, now: u64)
        requires
            sessions_wf(old(self)@),
        ensures
            final(self)@ == old(self)@.insert(c, TokenExpiry { last_used: now, issued: now }),
            sessions_wf(final(self)@),
    {
        session_map_insert(&mut self.tokens, c, TokenExpiry { last_used: now, issued: now });
    }

    /// Draws a fresh random credential and makes it valid from `now` on.
    pub fn issue(&mut self, now: u64) -> (c: Credential)
        requires
            sessions_wf(old(self)@),
        ensures
            final(self)@ == old(self)@.insert(c, TokenExpiry { last_used: now, issued: now }),
            sessions_wf(final(self)@),
    {
        let c: Credential = random_credential();
        self.issue_with(c, now);
        c
    }

    /// Checks `c` at time `now`: unknown credentials and expired sessions are
    /// refused, an expired session is forgotten, a live one is renewed.
    pub fn validate_and_touch(&mut self, c: &Credential, now: u64) -> (r: Result<(), AuthError>)
        requires
            sessions_wf(old(self)@),
        ensures
            r == validate_result(old(self)@, *c, now),
            final(self)@ == validate_next(old(self)@, *c, now),
            sessions_wf(final(self)@),
    {
        match session_map_get(&self.tokens, c) {
            None => Err(AuthError::UnknownCredential),
            Some(e) => {
                let live = (now < e.issued || now - e.issued <= ABSOLUTE_TTL_MS) && (now
                    < e.last_used || now - e.last_used <= IDLE_TTL_MS);
                if !live {
                    session_map_remove(&mut self.tokens, c);
                    Err(AuthError::SessionExpired)
                } else {
                    let last_used = if now >= e.last_used {
                        now
                    } else {
                        e.last_used
                    };
                    session_map_insert(
                        &mut self.tokens,
                        *c,
                        TokenExpiry { last_used, issued: e.issued },
                    );
                    Ok(())
                }
            },
        }
    }

    /// Forgets `c`, valid or not.
    pub fn revoke(&mut self, c: &Credential)
        requires
            sessions_wf(old(self)@),
        ensures
            final(self)@ == old(self)@.remove(*c),
            sessions_wf(final(self)@),
    {
        session_map_remove(&mut self.tokens, c);
    }
}

/// A session just issued at `t` passes a check at `t + eps` exactly when `eps`
/// is within the idle TTL (the smaller of the two budgets).
pub proof fn lemma_fresh_session_window(m: Map<Credential, TokenExpiry>, c: Credential, t: u64, eps: u64)
    requires
        t + eps <= u64::MAX,
    ensures
        ({
            let s = m.insert(c, TokenExpiry { last_used: t, issued: t });
            validate_result(s, c, (t + eps) as u64) is Ok <==> eps <= IDLE_TTL_MS
        }),
{
    let s = m.insert(c, TokenExpiry { last_used: t, issued: t });
    assert(s.contains_key(c) && s[c] == TokenExpiry { last_used: t, issued: t });
}

/// After a check that succeeds at `t`, a check at `t + eps` succeeds exactly
/// when `eps` is within both the idle budget and what remains at `t` of the
/// absolute budget. (`t` is a reading of a monotonic clock, so no earlier
/// than the session's last use.)
pub proof fn lemma_renewed_session_window(
    m: Map<Credential, TokenExpiry>,
    c: Credential,
    t: u64,
    eps: u64,
)
    requires
        sessions_wf(m),
        m.contains_key(c),
        m[c].last_used <= t,
        t + eps <= u64::MAX,
        validate_result(m, c, t) is Ok,
    ensures
        validate_result(validate_next(m, c, t), c, (t + eps) as u64) is Ok <==> (eps <= IDLE_TTL_MS
            && eps <= ABSOLUTE_TTL_MS - (t - m[c].issued)),
{
    let n = validate_next(m, c, t);
    assert(n.contains_key(c) && n[c] == TokenExpiry { last_used: t, issued: m[c].issued });
}

/// A check that fails forgets the credential for good: every later check of
/// it reports an unknown credential and changes nothing.
pub proof fn lemma_failed_check_is_final(
    m: Map<Credential, TokenExpiry>,
    c: Credential,
    t: u64,
    later: u64,
)
    requires
        validate_result(m, c, t) is Err,
    ensures
        !validate_next(m, c, t).contains_key(c),
        validate_result(validate_next(m, c, t), c, later) == Err::<(), AuthError>(
            AuthError::UnknownCredential,
        ),
        validate_next(validate_next(m, c, t), c, later) == validate_next(m, c, t),
{
}

} // verus!
