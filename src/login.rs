//! The decisions of the OAuth2 redirect callback. Each network or directory
//! round trip is made by the caller, who hands its outcome back as an event;
//! every step says what to do next.

use vstd::prelude::*;

use crate::directory::DirectoryAnswer;
use crate::error::AuthError;
use crate::exchange::{claim_next, claim_result, LoginCoordinator};
use crate::session::{sessions_wf, Credential, SessionStore, TokenExpiry};

verus! {

/// The string held by member `key` of the JSON object `text`; `None` if
/// `text` is not JSON, not an object, has no such member, or the member is
/// not a string.
pub uninterp spec fn json_string_member(text: Seq<char>, key: Seq<char>) -> Option<Seq<char>>;

/// Relies on `serde_json::from_str` into a `serde_json::Value`, then
/// `Value::get` and `Value::as_str`: reads one string member of a JSON object.
#[verifier::external_body]
fn read_json_string_member(text: &str, key: &str) -> (r: Option<String>)
    ensures
        r is Some <==> json_string_member(text@, key@) is Some,
        r is Some ==> r->Some_0@ == json_string_member(text@, key@)->Some_0,
{
    match serde_json::from_str::<serde_json::Value>(text) {
        Ok(v) => v.get(key).and_then(serde_json::Value::as_str).map(str::to_string),
        Err(_) => None,
    }
}

/// What the caller does next.
#[derive(Debug)]
pub enum RedirectStep {
    /// Exchange the authorization code, with this PKCE verifier, at the
    /// provider's token endpoint.
    ExchangeCode { verifier: String },
    /// Ask the provider's userinfo endpoint who holds this bearer token.
    FetchUserinfo { bearer: String },
    /// Ask the directory whether this email may sign in.
    LookupEmail { email: String },
    /// Signed in: hand `credential` to the browser as the session of `name`.
    Admit { name: String, credential: Credential },
    /// Refuse the callback.
    Refuse { error: AuthError },
}

/// The outcome of the round trip a step asked for.
#[derive(Debug)]
pub enum RedirectEvent {
    /// The token endpoint's access token, or `None` on any transport or protocol error.
    TokenExchanged(Option<String>),
    /// The userinfo endpoint's response body, or `None` on a transport error.
    UserinfoFetched(Option<String>),
    /// The directory's answer for the email: the user's display name if authorized.
    DirectoryAnswered(DirectoryAnswer<String>),
}

/// Starts handling a callback at `now`: the CSRF state from the cookie (if
/// the browser sent one) must equal the one in the query, and the matching
/// login's PKCE verifier is claimed.
pub fn redirect_start(
    logins: &mut LoginCoordinator,
    cookie_state: Option<String>,
    callback_state: &String,
    now: u64,
) -> (r: RedirectStep)
    ensures
        cookie_state is None ==> final(logins)@ == old(logins)@ && r == (RedirectStep::Refuse {
            error: AuthError::CsrfMismatch,
        }),
        cookie_state is Some ==> ({
            let c = cookie_state->Some_0@;
            &&& final(logins)@ == claim_next(old(logins)@, c, callback_state@)
            &&& match claim_result(old(logins)@, c, callback_state@, now) {
                Ok(v) => r is ExchangeCode && r->ExchangeCode_verifier@ == v,
                Err(e) => r == RedirectStep::Refuse { error: e },
            }
        }),
{
    match cookie_state {
        None => RedirectStep::Refuse { error: AuthError::CsrfMismatch },
        Some(c) => match logins.claim_verifier(&c, callback_state, now) {
            Ok(verifier) => RedirectStep::ExchangeCode { verifier },
            Err(error) => RedirectStep::Refuse { error },
        },
    }
}

/// Takes the outcome of the last round trip and says what to do next. An
/// authorized directory answer issues a fresh session at `now`; nothing else
/// touches the session store.
pub fn redirect_advance(sessions: &mut SessionStore, event: RedirectEvent, now: u64) -> (r:
    RedirectStep)
    requires
        sessions_wf(old(sessions)@),
    ensures
        sessions_wf(final(sessions)@),
        match event {
            RedirectEvent::TokenExchanged(None) => r == RedirectStep::Refuse {
                error: AuthError::ProviderExchangeFailed,
            },
            RedirectEvent::TokenExchanged(Some(t)) => r == RedirectStep::FetchUserinfo {
                bearer: t,
            },
            RedirectEvent::UserinfoFetched(None) => r == RedirectStep::Refuse {
                error: AuthError::ProviderUserinfoFailed,
            },
            RedirectEvent::UserinfoFetched(Some(body)) => match json_string_member(
                body@,
                "email"@,
            ) {
                None => r == RedirectStep::Refuse { error: AuthError::MalformedUserinfo },
                Some(e) => r is LookupEmail && r->LookupEmail_email@ == e,
            },
            RedirectEvent::DirectoryAnswered(DirectoryAnswer::Unavailable) => r
                == RedirectStep::Refuse { error: AuthError::DirectoryUnavailable },
            RedirectEvent::DirectoryAnswered(DirectoryAnswer::Unknown) => r == RedirectStep::Refuse {
                error: AuthError::IdentityNotAuthorized,
            },
            RedirectEvent::DirectoryAnswered(DirectoryAnswer::Found(name)) => r is Admit
                && r->Admit_name == name,
        },
        r is Admit ==> final(sessions)@ == old(sessions)@.insert(
            r->Admit_credential,
            TokenExpiry { last_used: now, issued: now },
        ),
        !(r is Admit) ==> final(sessions)@ == old(sessions)@,
{
    match event {
        RedirectEvent::TokenExchanged(None) => RedirectStep::Refuse {
            error: AuthError::ProviderExchangeFailed,
        },
        RedirectEvent::TokenExchanged(Some(bearer)) => RedirectStep::FetchUserinfo { bearer },
        RedirectEvent::UserinfoFetched(None) => RedirectStep::Refuse {
            error: AuthError::ProviderUserinfoFailed,
        },
        RedirectEvent::UserinfoFetched(Some(body)) => match read_json_string_member(
            body.as_str(),
            "email",
        ) {
            None => RedirectStep::Refuse { error: AuthError::MalformedUserinfo },
            Some(email) => RedirectStep::LookupEmail { email },
        },
        RedirectEvent::DirectoryAnswered(DirectoryAnswer::Unavailable) => RedirectStep::Refuse {
            error: AuthError::DirectoryUnavailable,
        },
        RedirectEvent::DirectoryAnswered(DirectoryAnswer::Unknown) => RedirectStep::Refuse {
            error: AuthError::IdentityNotAuthorized,
        },
        RedirectEvent::DirectoryAnswered(DirectoryAnswer::Found(name)) => {
            let credential = sessions.issue(now);
            RedirectStep::Admit { name, credential }
        },
    }
}

} // verus!
