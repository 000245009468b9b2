use geoauth::location::{Location, LocationStore};

fn loc(lat: f64, lon: f64, acc: f64, time: u64) -> Location {
    Location { latitude: lat.to_bits(), longitude: lon.to_bits(), accuracy: acc.to_bits(), time }
}

#[test]
fn never_updated_client_reads_zero() {
    let s = LocationStore::new();
    assert_eq!(s.get(7), loc(0.0, 0.0, 0.0, 0));
    assert_eq!(s.get(7), Location { latitude: 0, longitude: 0, accuracy: 0, time: 0 });
}

#[test]
fn get_returns_exactly_the_update() {
    let mut s = LocationStore::new();
    s.update_at(7, "phone".to_string(), 1.0f64.to_bits(), 2.0f64.to_bits(), 3.0f64.to_bits(), 1_700_000_000);
    assert_eq!(s.get(7), loc(1.0, 2.0, 3.0, 1_700_000_000));
    assert_eq!(s.get(8), loc(0.0, 0.0, 0.0, 0));
}

#[test]
fn update_reports_the_recorded_time() {
    let mut s = LocationStore::new();
    let t = s.update(7, "phone".to_string(), 1.0f64.to_bits(), 2.0f64.to_bits(), 3.0f64.to_bits());
    assert!(t > 1_600_000_000);
    assert_eq!(s.get(7), loc(1.0, 2.0, 3.0, t));
}

#[test]
fn new_update_replaces_the_record() {
    let mut s = LocationStore::new();
    s.update_at(7, "phone".to_string(), 1.0f64.to_bits(), 2.0f64.to_bits(), 3.0f64.to_bits(), 10);
    s.update_at(7, "phone".to_string(), (-4.5f64).to_bits(), 5.25f64.to_bits(), 6.0f64.to_bits(), 20);
    assert_eq!(s.get(7), loc(-4.5, 5.25, 6.0, 20));
}

#[test]
fn two_updates_one_roster_entry() {
    let mut s = LocationStore::new();
    s.update_at(7, "phone".to_string(), 1, 2, 3, 10);
    s.update_at(7, "renamed".to_string(), 4, 5, 6, 20);
    assert_eq!(s.list_known_clients(), vec![(7, "phone".to_string())]);
}

#[test]
fn roster_in_first_seen_order() {
    let mut s = LocationStore::new();
    assert_eq!(s.list_known_clients(), Vec::<(u64, String)>::new());
    s.update_at(9, "b".to_string(), 0, 0, 0, 1);
    s.update_at(3, "a".to_string(), 0, 0, 0, 2);
    s.update_at(9, "b".to_string(), 0, 0, 0, 3);
    s.update_at(5, "c".to_string(), 0, 0, 0, 4);
    assert_eq!(
        s.list_known_clients(),
        vec![(9, "b".to_string()), (3, "a".to_string()), (5, "c".to_string())]
    );
}
