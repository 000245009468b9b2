//! The access rules of the location endpoints: reading needs a valid
//! session, writing needs an API key the directory knows.

use vstd::prelude::*;

use crate::directory::DirectoryAnswer;
use crate::error::AuthError;
use crate::location::{location_of, roster_next, Location, LocationStore};
use crate::session::{sessions_wf, validate_next, validate_result, Credential, SessionStore};

verus! {

/// The record of client `id`, for the holder of session `credential` at
/// `now` (monotonic milliseconds). The session is checked and renewed first.
pub fn location_get(
    sessions: &mut SessionStore,
    locations: &LocationStore,
    credential: &Credential,
    id: u64,
    now: u64,
) -> (r: Result<Location, AuthError>)
    requires
        sessions_wf(old(sessions)@),
    ensures
        sessions_wf(final(sessions)@),
        final(sessions)@ == validate_next(old(sessions)@, *credential, now),
        r == (match validate_result(old(sessions)@, *credential, now) {
            Ok(_) => Ok(location_of(locations.records(), id)),
            Err(e) => Err::<Location, AuthError>(e),
        }),
{
    match sessions.validate_and_touch(credential, now) {
        Ok(()) => Ok(locations.get(id)),
        Err(e) => Err(e),
    }
}

/// The roster of clients, for the holder of session `credential` at `now`
/// (monotonic milliseconds). The session is checked and renewed first.
pub fn location_list(
    sessions: &mut SessionStore,
    locations: &LocationStore,
    credential: &Credential,
    now: u64,
) -> (r: Result<Vec<(u64, String)>, AuthError>)
    requires
        sessions_wf(old(sessions)@),
    ensures
        sessions_wf(final(sessions)@),
        final(sessions)@ == validate_next(old(sessions)@, *credential, now),
        r is Ok <==> validate_result(old(sessions)@, *credential, now) is Ok,
        r is Ok ==> r->Ok_0@ == locations.roster(),
        r is Err ==> r->Err_0 == validate_result(old(sessions)@, *credential, now)->Err_0,
{
    match sessions.validate_and_touch(credential, now) {
        Ok(()) => Ok(locations.list_known_clients()),
        Err(e) => Err(e),
    }
}

/// Records a position reported under an API key, given the directory's
/// answer for that key: the client's id and display name if it knows the
/// key. Returns the time recorded. A refused report changes nothing.
pub fn location_report(
    locations: &mut LocationStore,
    client: DirectoryAnswer<(u64, String)>,
    latitude: u64,
    longitude: u64,
    accuracy: u64,
) -> (r: Result<u64, AuthError>)
    requires
        old(locations).wf(),
    ensures
        final(locations).wf(),
        match client {
            DirectoryAnswer::Found((id, name)) => {
                &&& r is Ok
                &&& final(locations).records() == old(locations).records().insert(
                    id,
                    Location { latitude, longitude, accuracy, time: r->Ok_0 },
                )
                &&& final(locations).roster() == roster_next(
                    old(locations).records(),
                    old(locations).roster(),
                    id,
                    name,
                )
            },
            DirectoryAnswer::Unknown => {
                &&& r == Err::<u64, AuthError>(AuthError::UnknownApiKey)
                &&& final(locations).records() == old(locations).records()
                &&& final(locations).roster() == old(locations).roster()
            },
            DirectoryAnswer::Unavailable => {
                &&& r == Err::<u64, AuthError>(AuthError::DirectoryUnavailable)
                &&& final(locations).records() == old(locations).records()
                &&& final(locations).roster() == old(locations).roster()
            },
        },
{
    match client {
        DirectoryAnswer::Found((id, name)) => Ok(
            locations.update(id, name, latitude, longitude, accuracy),
        ),
        DirectoryAnswer::Unknown => Err(AuthError::UnknownApiKey),
        DirectoryAnswer::Unavailable => Err(AuthError::DirectoryUnavailable),
    }
}

} // verus!
