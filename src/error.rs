//! Failure reasons of the authentication core.

use vstd::prelude::*;

verus! {

/// Why an authentication step was refused.
///
/// Callers at the HTTP boundary collapse every variant into one
/// undifferentiated "forbidden" answer; the variants exist for logging.
#[derive(Debug, Clone, Copy, PartialEq, Eq, Structural)]
pub enum AuthError {
    CsrfMismatch,
    UnknownOrExpiredState,
    ProviderExchangeFailed,
    ProviderUserinfoFailed,
    MalformedUserinfo,
    IdentityNotAuthorized,
    UnknownCredential,
    SessionExpired,
    UnknownApiKey,
    DirectoryUnavailable,
}

} // verus!
