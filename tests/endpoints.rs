use geoauth::api::{location_get, location_list, location_report};
use geoauth::clock::unixtime_now;
use geoauth::directory::DirectoryAnswer;
use geoauth::error::AuthError;
use geoauth::location::{Location, LocationStore};
use geoauth::session::{Credential, SessionStore, IDLE_TTL_MS};

const CRED: Credential = [9; 8];

#[test]
fn unknown_api_key_records_nothing() {
    let mut locations = LocationStore::new();
    let r = location_report(&mut locations, DirectoryAnswer::Unknown, 1, 2, 3);
    assert_eq!(r, Err(AuthError::UnknownApiKey));
    assert_eq!(locations.list_known_clients(), Vec::<(u64, String)>::new());
    assert_eq!(locations.get(0), Location { latitude: 0, longitude: 0, accuracy: 0, time: 0 });
}

#[test]
fn unavailable_directory_records_nothing() {
    let mut locations = LocationStore::new();
    let r = location_report(&mut locations, DirectoryAnswer::Unavailable, 1, 2, 3);
    assert_eq!(r, Err(AuthError::DirectoryUnavailable));
    assert_eq!(locations.list_known_clients(), Vec::<(u64, String)>::new());
}

#[test]
fn known_api_key_records_the_report() {
    let mut locations = LocationStore::new();
    let found = DirectoryAnswer::Found((4, "tracker".to_string()));
    let t = location_report(&mut locations, found, 1.5f64.to_bits(), 2.5f64.to_bits(), 10.0f64.to_bits())
        .unwrap();
    assert_eq!(
        locations.get(4),
        Location {
            latitude: 1.5f64.to_bits(),
            longitude: 2.5f64.to_bits(),
            accuracy: 10.0f64.to_bits(),
            time: t
        }
    );
    assert_eq!(locations.list_known_clients(), vec![(4, "tracker".to_string())]);
}

#[test]
fn reading_needs_a_valid_session() {
    let mut sessions = SessionStore::new();
    let mut locations = LocationStore::new();
    locations.update_at(4, "tracker".to_string(), 1, 2, 3, 99);
    assert_eq!(
        location_get(&mut sessions, &locations, &CRED, 4, 0),
        Err(AuthError::UnknownCredential)
    );
    assert_eq!(location_list(&mut sessions, &locations, &CRED, 0), Err(AuthError::UnknownCredential));
    sessions.issue_with(CRED, 0);
    assert_eq!(
        location_get(&mut sessions, &locations, &CRED, 4, 10),
        Ok(Location { latitude: 1, longitude: 2, accuracy: 3, time: 99 })
    );
    assert_eq!(
        location_list(&mut sessions, &locations, &CRED, 20),
        Ok(vec![(4, "tracker".to_string())])
    );
    assert_eq!(
        location_get(&mut sessions, &locations, &CRED, 4, 20 + IDLE_TTL_MS + 1),
        Err(AuthError::SessionExpired)
    );
    assert_eq!(location_list(&mut sessions, &locations, &CRED, 30 + IDLE_TTL_MS), Err(AuthError::UnknownCredential));
}

#[test]
fn reading_renews_the_session() {
    let mut sessions = SessionStore::new();
    let locations = LocationStore::new();
    sessions.issue_with(CRED, 0);
    assert!(location_get(&mut sessions, &locations, &CRED, 1, IDLE_TTL_MS).is_ok());
    assert!(location_list(&mut sessions, &locations, &CRED, 2 * IDLE_TTL_MS).is_ok());
    assert_eq!(sessions.validate_and_touch(&CRED, 3 * IDLE_TTL_MS), Ok(()));
}

#[test]
fn unixtime_now_is_after_2023() {
    let t = unixtime_now();
    assert!(t > 1_700_000_000);
}
