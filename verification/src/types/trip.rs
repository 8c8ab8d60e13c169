//! The trip catalog generator: a bounded, deterministic list of candidate
//! trips for a given origin/destination/time constraint.

use crate::types::departure_or_arrival::{
    instant_in_range, now_millis, DepartureOrArrival, MAX_INSTANT_MS,
};
use crate::types::location::Location;
use vstd::arithmetic::div_mod::{lemma_fundamental_div_mod, lemma_mod_bound};
use vstd::prelude::*;

verus! {

/// Milliseconds in one hour: the spacing between consecutive candidates.
pub const HOUR_MS: i64 = 3_600_000;

/// Milliseconds in the fixed two-hour journey duration.
pub const TRIP_DURATION_MS: i64 = 7_200_000;

/// The largest number of trips one query returns.
pub const MAX_TRIPS: usize = 10;

/// Relies on `uuid::Uuid::new_v4` and `Uuid::as_u128`: a freshly generated
/// random version-4 UUID, returned as its 128 bits. Nothing is assumed of
/// the value.
#[verifier::external_body]
fn fresh_uuid_bits() -> (r: u128) {
    uuid::Uuid::new_v4().as_u128()
}

/// An opaque trip identifier, generated by the catalog. Callers never build
/// one themselves except by echoing a value previously returned.
#[derive(Debug, Clone, Copy, PartialEq, Eq, Structural)]
pub struct TripId(u128);

impl View for TripId {
    type V = u128;

    closed spec fn view(&self) -> u128 {
        self.0
    }
}

impl TripId {
    /// Rebuilds an identifier from its wire bits; meaningful only for bits
    /// previously handed out by the catalog.
    pub fn from_raw(bits: u128) -> (r: TripId)
        ensures
            r@ == bits,
    {
        TripId(bits)
    }

    /// The wire bits of the identifier.
    pub fn raw(&self) -> (r: u128)
        ensures
            r == self@,
    {
        self.0
    }

    /// A fresh identifier for a newly generated candidate trip.
    fn fresh() -> TripId {
        TripId(fresh_uuid_bits())
    }
}

/// One bookable journey offered by the catalog. Ephemeral: generated on
/// demand and never stored; only the identifier is captured into the draft
/// once a trip is chosen.
#[derive(Debug, PartialEq, Eq)]
pub struct Trip {
    pub id: TripId,
    pub origin: Location,
    pub destination: Location,
    /// Departure instant, in milliseconds since the Unix epoch.
    pub departure: i64,
    /// Arrival instant, in milliseconds since the Unix epoch.
    pub arrival: i64,
}

impl Clone for Trip {
    fn clone(&self) -> (r: Self)
        ensures
            r == *self,
    {
        Trip {
            id: self.id,
            origin: self.origin.clone(),
            destination: self.destination.clone(),
            departure: self.departure,
            arrival: self.arrival,
        }
    }
}

/// The departure anchor derived from the time constraint: a departure time
/// is used directly; an arrival time is pulled back by the fixed journey
/// duration.
pub open spec fn spec_anchor(time: DepartureOrArrival) -> int {
    match time {
        DepartureOrArrival::Departure(t) => t@ as int,
        DepartureOrArrival::Arrival(t) => t@ - TRIP_DURATION_MS,
    }
}

/// The index of the first hourly candidate departing strictly after `now`;
/// candidate `i` departs at `anchor + i` hours.
pub open spec fn spec_first_index(anchor: int, now: int) -> int {
    if anchor > now {
        0
    } else {
        (now - anchor) / (HOUR_MS as int) + 1
    }
}

/// One returned trip: the requested endpoints, the given departure instant,
/// and the fixed journey duration.
pub open spec fn trip_ok(t: Trip, origin: Seq<char>, destination: Seq<char>, departure: int) -> bool {
    &&& t.origin@ == origin
    &&& t.destination@ == destination
    &&& t.departure == departure
    &&& t.arrival == departure + TRIP_DURATION_MS
}

/// The schedule geometry of a returned trip list: the full complement of
/// candidates, departing hourly starting with the first candidate strictly
/// after `now`.
pub open spec fn matches_schedule(
    trips: Seq<Trip>,
    origin: Seq<char>,
    destination: Seq<char>,
    anchor: int,
    now: int,
) -> bool {
    &&& trips.len() == MAX_TRIPS
    &&& forall|j: int|
        0 <= j < trips.len() ==> trip_ok(
            #[trigger] trips[j],
            origin,
            destination,
            anchor + (spec_first_index(anchor, now) + j) * HOUR_MS,
        )
}

/// What the schedule geometry guarantees of every returned list: no more
/// than the cap, every departure strictly after the evaluation time, hourly
/// spacing between consecutive trips, and the fixed two-hour duration.
pub proof fn lemma_schedule_properties(
    trips: Seq<Trip>,
    origin: Seq<char>,
    destination: Seq<char>,
    anchor: int,
    now: int,
)
    requires
        matches_schedule(trips, origin, destination, anchor, now),
    ensures
        trips.len() <= MAX_TRIPS,
        forall|j: int| 0 <= j < trips.len() ==> #[trigger] trips[j].departure > now,
        forall|j: int|
            0 <= j < trips.len() ==> #[trigger] trips[j].arrival == trips[j].departure
                + TRIP_DURATION_MS,
        forall|j: int|
            0 <= j < trips.len() - 1 ==> #[trigger] trips[j + 1].departure == trips[j].departure
                + HOUR_MS,
{
    let first = spec_first_index(anchor, now);
    assert(first * HOUR_MS > now - anchor) by {
        if anchor <= now {
            lemma_fundamental_div_mod(now - anchor, HOUR_MS as int);
            lemma_mod_bound(now - anchor, HOUR_MS as int);
        }
    }
    assert forall|j: int| 0 <= j < trips.len() implies #[trigger] trips[j].departure > now by {
        assert(trip_ok(trips[j], origin, destination, anchor + (first + j) * HOUR_MS));
        assert((first + j) * HOUR_MS >= first * HOUR_MS) by {
            assert((first + j) * HOUR_MS == first * HOUR_MS + j * HOUR_MS) by (nonlinear_arith);
            assert(j * HOUR_MS >= 0) by (nonlinear_arith)
                requires j >= 0;
        }
    }
    assert forall|j: int| 0 <= j < trips.len() - 1 implies #[trigger] trips[j + 1].departure
        == trips[j].departure + HOUR_MS by {
        assert(trip_ok(trips[j], origin, destination, anchor + (first + j) * HOUR_MS));
        assert(trip_ok(trips[j + 1], origin, destination, anchor + (first + j + 1) * HOUR_MS));
        assert((first + j + 1) * HOUR_MS == (first + j) * HOUR_MS + HOUR_MS) by (nonlinear_arith);
    }
}

impl Trip {
    /// Generates the candidate trips for the given endpoints and time
    /// constraint at evaluation time `now`: hourly candidates from the
    /// derived anchor, filtered to depart strictly after `now`, capped at
    /// [`MAX_TRIPS`] in generation order.
    pub fn list_matching_at(
        origin: &Location,
        destination: &Location,
        time: DepartureOrArrival,
        now: i64,
    ) -> (r: Vec<Trip>)
        requires
            instant_in_range(now as int),
        ensures
            matches_schedule(r@, origin@, destination@, spec_anchor(time), now as int),
    {
        let t = time.timestamp();
        let ts: i64 = t.millis();
        let anchor: i64 = match time {
            DepartureOrArrival::Departure(_) => ts,
            DepartureOrArrival::Arrival(_) => ts - TRIP_DURATION_MS,
        };
        let first: i64 = if anchor > now {
            0
        } else {
            (now - anchor) / HOUR_MS + 1
        };
        proof {
            if anchor <= now {
                lemma_fundamental_div_mod(now as int - anchor as int, HOUR_MS as int);
                lemma_mod_bound(now as int - anchor as int, HOUR_MS as int);
            }
            assert(first * HOUR_MS > now - anchor);
            assert(first * HOUR_MS <= now - anchor + HOUR_MS || first == 0);
        }
        let mut dep: i64 = anchor + first * HOUR_MS;
        let mut trips: Vec<Trip> = Vec::new();
        while trips.len() < MAX_TRIPS
            invariant
                trips@.len() <= MAX_TRIPS,
                instant_in_range(now as int),
                -MAX_INSTANT_MS - TRIP_DURATION_MS <= anchor <= MAX_INSTANT_MS,
                anchor == spec_anchor(time),
                first == spec_first_index(anchor as int, now as int),
                dep == anchor + (first + trips@.len()) * HOUR_MS,
                dep > now,
                dep <= now + HOUR_MS + trips@.len() * HOUR_MS || dep == anchor + trips@.len()
                    * HOUR_MS,
                forall|j: int|
                    0 <= j < trips@.len() ==> trip_ok(
                        #[trigger] trips@[j],
                        origin@,
                        destination@,
                        anchor + (first + j) * HOUR_MS,
                    ),
            decreases MAX_TRIPS - trips@.len(),
        {
            let id = TripId::fresh();
            trips.push(
                Trip {
                    id,
                    origin: origin.clone(),
                    destination: destination.clone(),
                    departure: dep,
                    arrival: dep + TRIP_DURATION_MS,
                },
            );
            proof {
                assert((first + trips@.len()) * HOUR_MS == (first + trips@.len() - 1) * HOUR_MS
                    + HOUR_MS) by (nonlinear_arith);
            }
            dep = dep + HOUR_MS;
        }
        trips
    }

    /// Generates candidate trips for the given endpoints and time
    /// constraint, evaluated against the clock at the moment of the call.
    /// Identifiers are fresh per call; only the schedule geometry is
    /// deterministic relative to the anchor and the evaluation time.
    pub fn list_matching(origin: Location, destination: Location, time: DepartureOrArrival) -> (r:
        Vec<Trip>)
        ensures
            r@.len() == MAX_TRIPS,
            exists|now: int|
                instant_in_range(now) && matches_schedule(
                    r@,
                    origin@,
                    destination@,
                    spec_anchor(time),
                    now,
                ),
    {
        let now: i64 = now_millis();
        let trips = Self::list_matching_at(&origin, &destination, time, now);
        proof {
            assert(instant_in_range(now as int) && matches_schedule(
                trips@,
                origin@,
                destination@,
                spec_anchor(time),
                now as int,
            ));
        }
        trips
    }
}

} // verus!
