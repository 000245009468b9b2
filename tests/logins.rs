use geoauth::error::AuthError;
use geoauth::exchange::{LoginCoordinator, AUTH_WINDOW_MS};

fn s(x: &str) -> String {
    x.to_string()
}

#[test]
fn matching_callback_gets_the_verifier() {
    let mut c = LoginCoordinator::new();
    c.begin_login(s("S1"), s("V1"), 100);
    assert_eq!(c.claim_verifier(&s("S1"), &s("S1"), 200), Ok(s("V1")));
}

#[test]
fn verifier_is_handed_out_once() {
    let mut c = LoginCoordinator::new();
    c.begin_login(s("S1"), s("V1"), 0);
    assert_eq!(c.claim_verifier(&s("S1"), &s("S1"), 1), Ok(s("V1")));
    assert_eq!(c.claim_verifier(&s("S1"), &s("S1"), 2), Err(AuthError::UnknownOrExpiredState));
    assert!(!c.is_pending(&s("S1")));
}

#[test]
fn csrf_mismatch_is_refused_and_keeps_the_login() {
    let mut c = LoginCoordinator::new();
    c.begin_login(s("S1"), s("V1"), 0);
    assert_eq!(c.claim_verifier(&s("S1"), &s("S2"), 1), Err(AuthError::CsrfMismatch));
    assert!(c.is_pending(&s("S1")));
    assert_eq!(c.claim_verifier(&s("S1"), &s("S1"), 2), Ok(s("V1")));
}

#[test]
fn unknown_state_is_refused() {
    let mut c = LoginCoordinator::new();
    c.begin_login(s("S1"), s("V1"), 0);
    assert_eq!(c.claim_verifier(&s("S9"), &s("S9"), 1), Err(AuthError::UnknownOrExpiredState));
    assert!(c.is_pending(&s("S1")));
}

#[test]
fn login_completes_at_the_end_of_the_window() {
    let mut c = LoginCoordinator::new();
    c.begin_login(s("S1"), s("V1"), 10);
    assert_eq!(c.claim_verifier(&s("S1"), &s("S1"), 10 + AUTH_WINDOW_MS), Ok(s("V1")));
}

#[test]
fn stale_login_cannot_complete_and_is_consumed() {
    let mut c = LoginCoordinator::new();
    c.begin_login(s("S1"), s("V1"), 10);
    assert_eq!(
        c.claim_verifier(&s("S1"), &s("S1"), 10 + AUTH_WINDOW_MS + 1),
        Err(AuthError::UnknownOrExpiredState)
    );
    assert!(!c.is_pending(&s("S1")));
}

#[test]
fn new_login_sweeps_stale_ones() {
    let mut c = LoginCoordinator::new();
    c.begin_login(s("OLD"), s("V1"), 0);
    c.begin_login(s("MID"), s("V2"), 1_000);
    c.begin_login(s("NEW"), s("V3"), AUTH_WINDOW_MS + 1);
    assert!(!c.is_pending(&s("OLD")));
    assert!(c.is_pending(&s("MID")));
    assert!(c.is_pending(&s("NEW")));
}

#[test]
fn login_at_window_edge_survives_sweep() {
    let mut c = LoginCoordinator::new();
    c.begin_login(s("A"), s("V1"), 0);
    c.begin_login(s("B"), s("V2"), AUTH_WINDOW_MS);
    assert!(c.is_pending(&s("A")));
}
