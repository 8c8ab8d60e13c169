use chrono::Utc;
use takeoff::error::{Error, Slot};
use takeoff::types::class::Class;
use takeoff::types::customer_details::{Email, Name, PhoneNumber};
use takeoff::types::departure_or_arrival::{DepartureOrArrival, FutureTimestamp};
use takeoff::types::location::Location;
use takeoff::types::payment_info::PaymentInfo;
use takeoff::types::ticket_machine::{confirmation_outcome, TicketMachine};
use takeoff::types::trip::TripId;

fn loc(s: &str) -> Location {
    Location::try_from(s.to_string()).unwrap()
}

#[test]
fn test_empty_draft_default() {
    let d = TicketMachine::default();
    let empty = TicketMachine {
        origin: None,
        destination: None,
        time: None,
        trip: None,
        class: None,
        name: None,
        email: None,
        phone_number: None,
        payment_info: None,
    };
    assert!(d == empty);
}

#[test]
fn test_set_origin() {
    let mut d = TicketMachine::default();
    d.set_origin(loc("Amsterdam Centraal"));
    let expected = TicketMachine {
        origin: Some(loc("Amsterdam Centraal")),
        ..TicketMachine::default()
    };
    assert!(d == expected);
    // strings outside the allow-list never become a Location at all
    assert!(Location::try_from("Amsterdam".to_string()).is_err());
    assert!(Location::try_from("🚂-🛒-🛒-🛒".to_string()).is_err());
}

#[test]
fn test_out_of_order_set_is_rejected() {
    let mut d = TicketMachine::default();
    d.set_origin(loc("Amsterdam Centraal"));
    let snapshot = d.clone();
    let r = d.set_class(Class::First);
    assert_eq!(
        r,
        Err(Error::Ordering { slot: Slot::Class, missing: Slot::Trip })
    );
    assert!(d == snapshot);
    assert!(d.origin == Some(loc("Amsterdam Centraal")));
    assert!(d.class.is_none());
}

#[test]
fn test_every_prerequisite_is_enforced() {
    let mut d = TicketMachine::default();
    let t = FutureTimestamp::new_checked(2_000, 1_000).unwrap();
    assert_eq!(
        d.set_destination(loc("Paris Nord")),
        Err(Error::Ordering { slot: Slot::Destination, missing: Slot::Origin })
    );
    assert_eq!(
        d.set_departure(t),
        Err(Error::Ordering { slot: Slot::Time, missing: Slot::Destination })
    );
    assert_eq!(
        d.set_arrival(t),
        Err(Error::Ordering { slot: Slot::Time, missing: Slot::Destination })
    );
    assert_eq!(
        d.set_trip(TripId::from_raw(7)),
        Err(Error::Ordering { slot: Slot::Trip, missing: Slot::Time })
    );
    assert_eq!(
        d.set_class(Class::Second),
        Err(Error::Ordering { slot: Slot::Class, missing: Slot::Trip })
    );
    assert_eq!(
        d.set_name(Name::try_from("h".to_string()).unwrap()),
        Err(Error::Ordering { slot: Slot::Name, missing: Slot::Class })
    );
    assert_eq!(
        d.set_email(Email::try_from("fake@example.com".to_string()).unwrap()),
        Err(Error::Ordering { slot: Slot::Email, missing: Slot::Name })
    );
    assert_eq!(
        d.set_phone_number(PhoneNumber::try_new("123-456".to_string()).unwrap()),
        Err(Error::Ordering { slot: Slot::PhoneNumber, missing: Slot::Email })
    );
    assert_eq!(
        d.book_trip(PaymentInfo::new("token".to_string())),
        Err(Error::Ordering { slot: Slot::PaymentInfo, missing: Slot::PhoneNumber })
    );
    // every rejection left the draft untouched
    assert!(d == TicketMachine::default());
    assert_eq!(
        d.list_trips().unwrap_err(),
        Error::Ordering { slot: Slot::Trip, missing: Slot::Origin }
    );
}

#[test]
fn test_list_trips_needs_all_three() {
    let mut d = TicketMachine::default();
    d.set_origin(loc("Amsterdam Centraal"));
    assert_eq!(
        d.list_trips().unwrap_err(),
        Error::Ordering { slot: Slot::Trip, missing: Slot::Destination }
    );
    d.set_destination(loc("Berlin Hbf")).unwrap();
    assert_eq!(
        d.list_trips().unwrap_err(),
        Error::Ordering { slot: Slot::Trip, missing: Slot::Time }
    );
}

#[test]
fn complete_flow() {
    let mut d = TicketMachine::default();
    d.set_origin(loc("Amsterdam Centraal"));
    d.set_destination(loc("London Waterloo")).unwrap();
    let dep_ms = Utc::now().timestamp_millis() + 30 * 60 * 1000;
    let t = FutureTimestamp::try_from(dep_ms).unwrap();
    d.set_departure(t).unwrap();
    let trips = d.list_trips().unwrap();
    assert!(!trips.is_empty());
    let chosen = trips[0].id;
    d.set_trip(chosen).unwrap();
    d.set_class(Class::First).unwrap();
    d.set_name(Name::try_from("h".to_string()).unwrap()).unwrap();
    d.set_email(Email::try_from("fake@example.com".to_string()).unwrap()).unwrap();
    d.set_phone_number(PhoneNumber::try_new("123-456".to_string()).unwrap()).unwrap();
    let token = "{\"card_number\":\"1234 5678 9012 3456\",\"cvc\":\"123\",\"exp\":\"12/34\"}";
    d.book_trip(PaymentInfo::new(token.to_string())).unwrap();

    assert!(d.origin == Some(loc("Amsterdam Centraal")));
    assert!(d.destination == Some(loc("London Waterloo")));
    assert!(d.time == Some(DepartureOrArrival::Departure(t)));
    assert!(d.trip == Some(chosen));
    assert!(d.class == Some(Class::First));
    assert!(d.name == Some(Name::try_from("h".to_string()).unwrap()));
    assert!(d.email == Some(Email::try_from("fake@example.com".to_string()).unwrap()));
    assert!(d.phone_number == Some(PhoneNumber::try_new("123-456".to_string()).unwrap()));
    assert!(d.payment_info.is_some());

    let rendered = d.render();
    assert!(rendered.contains("<SECRET>"));
    assert!(!rendered.contains("1234 5678 9012 3456"));
    assert_eq!(confirmation_outcome(true), Ok(()));
}

#[test]
fn complete_flow_arrival() {
    let mut d = TicketMachine::default();
    d.set_origin(loc("Amsterdam Centraal"));
    d.set_destination(loc("London Waterloo")).unwrap();
    let arr_ms = Utc::now().timestamp_millis() + 30 * 60 * 1000;
    let t = FutureTimestamp::try_from(arr_ms).unwrap();
    d.set_arrival(t).unwrap();
    let trips = d.list_trips().unwrap();
    d.set_trip(trips[0].id).unwrap();
    d.set_class(Class::Second).unwrap();
    d.set_name(Name::try_from("a".to_string()).unwrap()).unwrap();
    d.set_email(Email::try_from("fake@example.com".to_string()).unwrap()).unwrap();
    d.set_phone_number(PhoneNumber::try_new("123-456".to_string()).unwrap()).unwrap();
    d.book_trip(PaymentInfo::new("opaque token".to_string())).unwrap();
    assert!(d.time == Some(DepartureOrArrival::Arrival(t)));
    assert!(d.class == Some(Class::Second));
    assert!(d.payment_info.is_some());
}

#[test]
fn test_payment_details_debug_impl() {
    let ticket_machine = TicketMachine {
        origin: None,
        destination: None,
        time: None,
        trip: None,
        class: None,
        name: None,
        email: None,
        phone_number: None,
        payment_info: Some(PaymentInfo::new("💰💰💰".to_string())),
    };
    let dbg_output = ticket_machine.render();
    assert_eq!(
        dbg_output,
        "TicketMachine { origin: None, destination: None, time: None, trip: None, class: None, name: None, email: None, phone_number: None, payment_info: Some(PaymentInfo(\"<SECRET>\")) }"
    );
}

#[test]
fn test_render_filled_slots_exactly() {
    let t = FutureTimestamp::new_checked(1_234, 1_000).unwrap();
    let d = TicketMachine {
        origin: Some(loc("Berlin Hbf")),
        destination: None,
        time: Some(DepartureOrArrival::Departure(t)),
        trip: Some(TripId::from_raw(42)),
        class: Some(Class::First),
        name: None,
        email: None,
        phone_number: None,
        payment_info: None,
    };
    assert_eq!(
        d.render(),
        "TicketMachine { origin: Some(Location(\"Berlin Hbf\")), destination: None, time: Some(Departure(FutureTimestamp(1234))), trip: Some(TripId(42)), class: Some(First), name: None, email: None, phone_number: None, payment_info: None }"
    );
}

#[test]
fn test_render_negative_instant() {
    let t = FutureTimestamp::new_checked(-5, -10).unwrap();
    let d = TicketMachine {
        origin: None,
        destination: None,
        time: Some(DepartureOrArrival::Arrival(t)),
        trip: None,
        class: None,
        name: None,
        email: None,
        phone_number: None,
        payment_info: None,
    };
    assert!(d.render().contains("Some(Arrival(FutureTimestamp(-5)))"));
}

#[test]
fn test_confirmation_outcome() {
    assert_eq!(confirmation_outcome(true), Ok(()));
    assert_eq!(confirmation_outcome(false), Err(Error::Booking));
}

#[test]
fn test_slot_names() {
    assert_eq!(Slot::Origin.name(), "origin");
    assert_eq!(Slot::Destination.name(), "destination");
    assert_eq!(Slot::Time.name(), "time");
    assert_eq!(Slot::Trip.name(), "trip");
    assert_eq!(Slot::Class.name(), "class");
    assert_eq!(Slot::Name.name(), "name");
    assert_eq!(Slot::Email.name(), "email");
    assert_eq!(Slot::PhoneNumber.name(), "phone_number");
    assert_eq!(Slot::PaymentInfo.name(), "payment_info");
}
