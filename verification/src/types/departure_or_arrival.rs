//! Timestamps validated to lie in the future, and the departure/arrival
//! role the user assigns to one.

use vstd::prelude::*;

verus! {

/// Largest instant the core handles, in milliseconds since the Unix epoch.
/// Chosen so that every calendar timestamp fits and schedule arithmetic
/// stays far from the integer limits.
pub const MAX_INSTANT_MS: i64 = 9_007_199_254_740_992;

/// An instant the core can do schedule arithmetic on without overflow.
pub open spec fn instant_in_range(ms: int) -> bool {
    -MAX_INSTANT_MS <= ms <= MAX_INSTANT_MS
}

/// Relies on `chrono::Utc::now` and `DateTime::timestamp_millis`: the current
/// time in milliseconds since the Unix epoch. `DateTime` is bounded by
/// `DateTime::MIN_UTC` and `DateTime::MAX_UTC` (years -262144 to 262143),
/// so the result lies well within the instant range.
#[verifier::external_body]
pub(crate) fn now_millis() -> (r: i64)
    ensures
        instant_in_range(r as int),
{
    chrono::Utc::now().timestamp_millis()
}

/// Returned when a timestamp does not lie strictly in the future.
#[derive(Debug, Clone, Copy, PartialEq, Eq, Structural)]
pub enum TimeError {
    TimeInPast,
}

/// An instant, in milliseconds since the Unix epoch, that lay strictly in
/// the future when it was validated. The check runs only at construction,
/// never on later reads.
#[derive(Debug, Clone, Copy, PartialEq, Eq, Structural)]
pub struct FutureTimestamp(i64);

impl View for FutureTimestamp {
    type V = i64;

    closed spec fn view(&self) -> i64 {
        self.0
    }
}

impl FutureTimestamp {
    /// Every timestamp lies in the range schedule arithmetic can handle.
    #[verifier::type_invariant]
    pub closed spec fn wf(self) -> bool {
        instant_in_range(self.0 as int)
    }

    /// Validates a timestamp against a given evaluation time: it fails for
    /// every instant at or before `now` and succeeds for every instant
    /// strictly after it. The boundary is strict: an instant equal to `now`
    /// is rejected.
    pub fn new_checked(millis: i64, now: i64) -> (r: Result<FutureTimestamp, TimeError>)
        requires
            instant_in_range(millis as int),
        ensures
            r matches Ok(t) ==> t@ == millis && millis > now,
            r is Err <==> millis <= now,
            r is Err ==> r == Err::<FutureTimestamp, TimeError>(TimeError::TimeInPast),
    {
        if millis > now {
            Ok(FutureTimestamp(millis))
        } else {
            Err(TimeError::TimeInPast)
        }
    }

    /// Validates a timestamp against the clock at the moment of the call.
    /// Near the boundary the outcome can differ between retries; that
    /// non-determinism is part of the design.
    pub fn try_from(millis: i64) -> (r: Result<FutureTimestamp, TimeError>)
        requires
            instant_in_range(millis as int),
        ensures
            r matches Ok(t) ==> t@ == millis,
            r is Err ==> r == Err::<FutureTimestamp, TimeError>(TimeError::TimeInPast),
    {
        let now: i64 = now_millis();
        Self::new_checked(millis, now)
    }

    /// The instant, in milliseconds since the Unix epoch; always within
    /// the instant range.
    pub fn millis(&self) -> (r: i64)
        ensures
            r == self@,
            instant_in_range(r as int),
    {
        proof {
            use_type_invariant(self);
        }
        self.0
    }
}

/// Which role the user gave the supplied timestamp: the time they want to
/// leave, or the time they want to have arrived.
#[derive(Debug, Clone, Copy, PartialEq, Eq, Structural)]
pub enum DepartureOrArrival {
    Departure(FutureTimestamp),
    Arrival(FutureTimestamp),
}

impl DepartureOrArrival {
    /// The timestamp the user supplied, whichever role it plays.
    pub open spec fn spec_timestamp(self) -> FutureTimestamp {
        match self {
            DepartureOrArrival::Departure(t) => t,
            DepartureOrArrival::Arrival(t) => t,
        }
    }

    /// The timestamp the user supplied, whichever role it plays.
    pub fn timestamp(&self) -> (r: FutureTimestamp)
        ensures
            r == self.spec_timestamp(),
    {
        match self {
            DepartureOrArrival::Departure(t) => *t,
            DepartureOrArrival::Arrival(t) => *t,
        }
    }
}

} // verus!
