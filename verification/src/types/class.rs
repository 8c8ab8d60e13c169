//! The fare class, a closed two-value enum with lowercase wire tokens.

use crate::text::str_eq;
use vstd::prelude::*;

verus! {

/// Fare class. Only the two canonical lowercase tokens deserialize;
/// anything else fails, and there is no default.
#[derive(Debug, Clone, Copy, PartialEq, Eq, Structural)]
pub enum Class {
    First,
    Second,
}

/// Returned when a wire token is neither canonical value.
#[derive(Debug, Clone, Copy, PartialEq, Eq, Structural)]
pub struct ParseClassError;

impl Class {
    /// The wire token of each variant.
    pub open spec fn spec_token(self) -> Seq<char> {
        match self {
            Class::First => "first"@,
            Class::Second => "second"@,
        }
    }

    /// What deserializing a wire token yields.
    pub open spec fn spec_parse(s: Seq<char>) -> Option<Class> {
        if s == "first"@ {
            Some(Class::First)
        } else if s == "second"@ {
            Some(Class::Second)
        } else {
            None
        }
    }

    /// Serializes to the wire token.
    pub fn token(self) -> (r: &'static str)
        ensures
            r@ == self.spec_token(),
    {
        match self {
            Class::First => "first",
            Class::Second => "second",
        }
    }

    /// Deserializes a wire token; fails on any token other than the two
    /// canonical values.
    pub fn try_from(s: &str) -> (r: Result<Class, ParseClassError>)
        ensures
            r matches Ok(c) ==> Self::spec_parse(s@) == Some(c),
            r is Err <==> Self::spec_parse(s@) is None,
    {
        if str_eq(s, "first") {
            Ok(Class::First)
        } else if str_eq(s, "second") {
            Ok(Class::Second)
        } else {
            Err(ParseClassError)
        }
    }
}

/// Serializing either variant and deserializing the token yields the same
/// variant back.
pub proof fn lemma_class_round_trip(c: Class)
    ensures
        Class::spec_parse(c.spec_token()) == Some(c),
{
    reveal_strlit("first");
    reveal_strlit("second");
    assert("first"@.len() == 5);
    assert("second"@.len() == 6);
}

/// A token that deserializes at all was one of the two canonical values,
/// and serializing the resulting variant yields that token back.
pub proof fn lemma_class_parse_inverse(s: Seq<char>, c: Class)
    requires
        Class::spec_parse(s) == Some(c),
    ensures
        c.spec_token() == s,
{
    reveal_strlit("first");
    reveal_strlit("second");
    assert("first"@.len() == 5);
    assert("second"@.len() == 6);
}

} // verus!
