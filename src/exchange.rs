//! Pending OAuth2 authorization-code exchanges: the PKCE verifier of each
//! login in flight, keyed by its CSRF state.

use dashmap::DashMap;
use vstd::prelude::*;

use crate::error::AuthError;

verus! {

/// How long (milliseconds) a login may stay in flight before its state is void.
pub const AUTH_WINDOW_MS: u64 = 5 * 60 * 1000;

/// One login in flight.
#[derive(Debug)]
pub struct PendingExchange {
    /// When the login began, in milliseconds of a monotonic clock.
    pub created_at: u64,
    /// The PKCE code verifier paired with the challenge sent to the provider.
    pub verifier: String,
}

type PendingMap = DashMap<String, PendingExchange>;

/// What the pending-exchange map holds, keyed by CSRF state.
pub uninterp spec fn pending_entries(m: PendingMap) -> Map<Seq<char>, PendingExchange>;

/// Relies on `DashMap::new`: a new map is empty.
#[verifier::external_body]
fn pending_map_new() -> (m: PendingMap)
    ensures
        pending_entries(m).dom() == Set::<Seq<char>>::empty(),
{
    DashMap::new()
}

/// Relies on `DashMap::insert`: the key maps to the value afterwards, other keys are untouched.
#[verifier::external_body]
fn pending_map_insert(m: &mut PendingMap, state: String, p: PendingExchange)
    ensures
        pending_entries(*final(m)) == pending_entries(*old(m)).insert(state@, p),
{
    m.insert(state, p);
}

/// Relies on `DashMap::remove`: hands out the value stored under the key, if
/// any, and leaves the key absent; other keys are untouched.
#[verifier::external_body]
fn pending_map_remove(m: &mut PendingMap, state: &String) -> (r: Option<PendingExchange>)
    ensures
        pending_entries(*final(m)) == pending_entries(*old(m)).remove(state@),
        r == (if pending_entries(*old(m)).contains_key(state@) {
            Some(pending_entries(*old(m))[state@])
        } else {
            None::<PendingExchange>
        }),
{
    m.remove(state).map(|(_, p)| p)
}

/// Relies on `DashMap::contains_key`: whether the key is present.
#[verifier::external_body]
fn pending_map_contains(m: &PendingMap, state: &String) -> (r: bool)
    ensures
        r == pending_entries(*m).contains_key(state@),
{
    m.contains_key(state)
}

/// Relies on `DashMap::retain`: keeps exactly the entries for which the
/// predicate holds.
#[verifier::external_body]
fn pending_map_retain_live(m: &mut PendingMap, now: u64)
    ensures
        pending_entries(*final(m)) == swept(pending_entries(*old(m)), now),
{
    m.retain(|_, p| is_live(p, now));
}

/// Whether a login begun at `p.created_at` may still complete at `now`.
pub open spec fn pending_live(p: PendingExchange, now: u64) -> bool {
    now - p.created_at <= AUTH_WINDOW_MS
}

/// The entries of `m` that may still complete at `now`.
pub open spec fn swept(m: Map<Seq<char>, PendingExchange>, now: u64) -> Map<Seq<char>, PendingExchange> {
    m.filter_keys(|k: Seq<char>| pending_live(m[k], now))
}

fn is_live(p: &PendingExchange, now: u64) -> (r: bool)
    ensures
        r == pending_live(*p, now),
{
    now < p.created_at || now - p.created_at <= AUTH_WINDOW_MS
}

/// The map after a login begins at `now` under `state` with `verifier`.
pub open spec fn begin_next(
    m: Map<Seq<char>, PendingExchange>,
    state: Seq<char>,
    p: PendingExchange,
    now: u64,
) -> Map<Seq<char>, PendingExchange> {
    swept(m.insert(state, p), now)
}

/// The answer to a callback at `now` whose cookie holds `cookie` and whose
/// query holds `callback`: the verifier of a live matching login.
pub open spec fn claim_result(
    m: Map<Seq<char>, PendingExchange>,
    cookie: Seq<char>,
    callback: Seq<char>,
    now: u64,
) -> Result<Seq<char>, AuthError> {
    if cookie != callback {
        Err(AuthError::CsrfMismatch)
    } else if !m.contains_key(cookie) || !pending_live(m[cookie], now) {
        Err(AuthError::UnknownOrExpiredState)
    } else {
        Ok(m[cookie].verifier@)
    }
}

/// The map after such a callback: a matching state is consumed whatever the outcome.
pub open spec fn claim_next(
    m: Map<Seq<char>, PendingExchange>,
    cookie: Seq<char>,
    callback: Seq<char>,
) -> Map<Seq<char>, PendingExchange> {
    if cookie != callback {
        m
    } else {
        m.remove(cookie)
    }
}

/// The logins in flight, each bound to the CSRF state its browser holds.
///
/// Every operation takes `&mut self`, so the lookup and removal of a state
/// happen as one step; callers share the coordinator behind a lock.
pub struct LoginCoordinator {
    pending: PendingMap,
}

impl View for LoginCoordinator {
    type V = Map<Seq<char>, PendingExchange>;

    closed spec fn view(&self) -> Map<Seq<char>, PendingExchange> {
        pending_entries(self.pending)
    }
}

impl LoginCoordinator {
    /// A coordinator with no login in flight.
    pub fn new() -> (c: Self)
        ensures
            c@ == Map::<Seq<char>, PendingExchange>::empty(),
    {
        let c = LoginCoordinator { pending: pending_map_new() };
        assert(c@ =~= Map::<Seq<char>, PendingExchange>::empty());
        c
    }

    /// Records a login begun at `now`: `state` is the fresh CSRF token handed
    /// to the browser, `verifier` the PKCE verifier of the challenge sent to
    /// the provider. Every login older than the authorization window is
    /// discarded on the way.
    pub fn begin_login(&mut self, state: String, verifier: String, now: u64)
        ensures
            final(self)@ == begin_next(
                old(self)@,
                state@,
                PendingExchange { created_at: now, verifier },
                now,
            ),
    {
        pending_map_insert(&mut self.pending, state, PendingExchange { created_at: now, verifier });
        pending_map_retain_live(&mut self.pending, now);
    }

    /// Whether a login under `state` is held, live or not yet swept.
    pub fn is_pending(&self, state: &String) -> (r: bool)
        ensures
            r == self@.contains_key(state@),
    {
        pending_map_contains(&self.pending, state)
    }

    /// Checks a callback at `now` against its cookie and hands out the PKCE
    /// verifier of the matching login. The two CSRF values must agree; the
    /// matching login is removed on this first lookup, whether it is still
    /// live or not, so a verifier is handed out at most once.
    pub fn claim_verifier(&mut self, cookie_state: &String, callback_state: &String, now: u64) -> (r:
        Result<String, AuthError>)
        ensures
            final(self)@ == claim_next(old(self)@, cookie_state@, callback_state@),
            r is Ok <==> claim_result(old(self)@, cookie_state@, callback_state@, now) is Ok,
            r is Ok ==> r->Ok_0@ == claim_result(
                old(self)@,
                cookie_state@,
                callback_state@,
                now,
            )->Ok_0,
            r is Err ==> r == Err::<String, AuthError>(
                claim_result(old(self)@, cookie_state@, callback_state@, now)->Err_0,
            ),
    {
        if !cookie_state.eq(callback_state) {
            return Err(AuthError::CsrfMismatch);
        }
        match pending_map_remove(&mut self.pending, cookie_state) {
            None => Err(AuthError::UnknownOrExpiredState),
            Some(p) => {
                if is_live(&p, now) {
                    Ok(p.verifier)
                } else {
                    Err(AuthError::UnknownOrExpiredState)
                }
            },
        }
    }
}

/// A PKCE verifier is handed out at most once: of two callbacks that carry the
/// same state, whatever their cookies and times, at most one succeeds, and
/// once the first has found the state, the second finds nothing.
pub proof fn lemma_verifier_claimed_at_most_once(
    m: Map<Seq<char>, PendingExchange>,
    state: Seq<char>,
    cookie1: Seq<char>,
    cookie2: Seq<char>,
    t1: u64,
    t2: u64,
)
    ensures
        !(claim_result(m, cookie1, state, t1) is Ok && claim_result(
            claim_next(m, cookie1, state),
            cookie2,
            state,
            t2,
        ) is Ok),
        claim_result(m, cookie1, state, t1) is Ok ==> claim_result(
            claim_next(m, cookie1, state),
            cookie2,
            state,
            t2,
        ) is Err,
        cookie1 == state ==> !claim_next(m, cookie1, state).contains_key(state),
{
}

/// A login begun at `t` and not completed cannot be completed after the
/// authorization window: a callback for its state fails, and the next login
/// begun under any other state removes it from the map.
pub proof fn lemma_stale_login_unreachable(
    m: Map<Seq<char>, PendingExchange>,
    state: Seq<char>,
    t: u64,
    later: u64,
    other: Seq<char>,
    p: PendingExchange,
)
    requires
        m.contains_key(state) ==> m[state].created_at == t,
        later > t + AUTH_WINDOW_MS,
        other != state,
    ensures
        claim_result(m, state, state, later) == Err::<Seq<char>, AuthError>(
            AuthError::UnknownOrExpiredState,
        ),
        !begin_next(m, other, p, later).contains_key(state),
{
}

} // verus!
