use chrono::Utc;
use takeoff::types::departure_or_arrival::{DepartureOrArrival, FutureTimestamp};
use takeoff::types::location::Location;
use takeoff::types::trip::{Trip, TripId, HOUR_MS, MAX_TRIPS, TRIP_DURATION_MS};

fn station(s: &str) -> Location {
    Location::try_from(s.to_string()).unwrap()
}

#[test]
fn test_list_matching_departure_geometry() {
    let dep_ms = Utc::now().timestamp_millis() + 30 * 60 * 1000;
    let t = FutureTimestamp::try_from(dep_ms).unwrap();
    let before = Utc::now().timestamp_millis();
    let trips = Trip::list_matching(
        station("Amsterdam Centraal"),
        station("London Waterloo"),
        DepartureOrArrival::Departure(t),
    );
    assert_eq!(trips.len(), MAX_TRIPS);
    assert!(trips.len() <= 10);
    for (i, trip) in trips.iter().enumerate() {
        assert_eq!(trip.origin.as_str(), "Amsterdam Centraal");
        assert_eq!(trip.destination.as_str(), "London Waterloo");
        assert!(trip.departure > before);
        assert_eq!(trip.arrival - trip.departure, TRIP_DURATION_MS);
        // the anchor lies ahead of the clock, so the schedule starts there
        assert_eq!(trip.departure, dep_ms + (i as i64) * HOUR_MS);
    }
}

#[test]
fn test_list_matching_arrival_geometry() {
    // an arrival 30 minutes out anchors the schedule in the past, so the
    // earliest candidates are filtered away by the clock
    let arr_ms = Utc::now().timestamp_millis() + 30 * 60 * 1000;
    let t = FutureTimestamp::try_from(arr_ms).unwrap();
    let anchor = arr_ms - TRIP_DURATION_MS;
    let before = Utc::now().timestamp_millis();
    let trips = Trip::list_matching(
        station("Paris Nord"),
        station("Berlin Hbf"),
        DepartureOrArrival::Arrival(t),
    );
    let after = Utc::now().timestamp_millis();
    assert_eq!(trips.len(), MAX_TRIPS);
    for (i, trip) in trips.iter().enumerate() {
        assert_eq!(trip.origin.as_str(), "Paris Nord");
        assert_eq!(trip.destination.as_str(), "Berlin Hbf");
        assert!(trip.departure > before);
        assert_eq!((trip.departure - anchor) % HOUR_MS, 0);
        assert_eq!(trip.departure, trips[0].departure + (i as i64) * HOUR_MS);
        assert_eq!(trip.arrival, trip.departure + TRIP_DURATION_MS);
    }
    // the first returned candidate is the earliest one past the clock
    assert!(trips[0].departure - HOUR_MS <= after);
}

#[test]
fn test_trip_id_echo() {
    let id = TripId::from_raw(42);
    assert_eq!(id.raw(), 42);
    assert_eq!(TripId::from_raw(id.raw()), id);
    let large = TripId::from_raw(u128::MAX);
    assert_eq!(large.raw(), u128::MAX);
}
