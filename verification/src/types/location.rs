//! Station names, validated against a fixed allow-list.

use crate::text::str_eq;
use vstd::prelude::*;

verus! {

/// Membership in the fixed station allow-list. Matching is exact:
/// case-sensitive and whitespace-sensitive, with no normalization.
pub open spec fn location_allowed(s: Seq<char>) -> bool {
    ||| s == "Amsterdam Centraal"@
    ||| s == "Paris Nord"@
    ||| s == "Berlin Hbf"@
    ||| s == "London Waterloo"@
}

/// A station name from the fixed allow-list.
///
/// The only way to obtain one is the validating constructor [`Location::try_from`],
/// so every value in existence names an allowed station.
#[derive(Debug, PartialEq, Eq)]
pub struct Location(String);

/// The rejected input, returned when a string is not in the allow-list.
#[derive(Debug, PartialEq, Eq)]
pub struct ParseLocationError(String);

impl View for Location {
    type V = Seq<char>;

    closed spec fn view(&self) -> Seq<char> {
        self.0@
    }
}

impl View for ParseLocationError {
    type V = Seq<char>;

    closed spec fn view(&self) -> Seq<char> {
        self.0@
    }
}

impl Clone for Location {
    fn clone(&self) -> (r: Self)
        ensures
            r == *self,
    {
        proof {
            use_type_invariant(self);
        }
        Location(self.0.clone())
    }
}

impl Location {
    /// Every location holds an allowed station name.
    #[verifier::type_invariant]
    pub closed spec fn wf(self) -> bool {
        location_allowed(self.0@)
    }

    /// Tests membership in the station allow-list.
    pub fn is_valid_location(location: &str) -> (r: bool)
        ensures
            r == location_allowed(location@),
    {
        str_eq(location, "Amsterdam Centraal") || str_eq(location, "Paris Nord") || str_eq(
            location,
            "Berlin Hbf",
        ) || str_eq(location, "London Waterloo")
    }

    /// Validating constructor: accepts exactly the strings in the allow-list
    /// and rejects everything else, handing the input back in the error.
    pub fn try_from(s: String) -> (r: Result<Location, ParseLocationError>)
        ensures
            r matches Ok(l) ==> l@ == s@ && location_allowed(s@),
            r matches Err(e) ==> e@ == s@ && !location_allowed(s@),
    {
        if Self::is_valid_location(s.as_str()) {
            Ok(Location(s))
        } else {
            Err(ParseLocationError(s))
        }
    }

    /// The wire representation: the station name itself.
    pub fn as_str(&self) -> (r: &str)
        ensures
            r@ == self@,
    {
        self.0.as_str()
    }
}

/// Every constructed location is in the allow-list. Together with the
/// contract of [`Location::try_from`], serializing a location and parsing
/// the result succeeds and yields a value with the same station name.
pub proof fn lemma_location_round_trip(l: Location)
    requires
        l.wf(),
    ensures
        location_allowed(l@),
{
}

} // verus!
