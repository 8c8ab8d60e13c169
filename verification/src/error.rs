//! The error taxonomy of the booking core and the draft's slot enumeration.

use vstd::prelude::*;

verus! {

/// One named field of the booking draft, in required fill order.
#[derive(Clone, Copy, Debug, PartialEq, Eq, Structural)]
pub enum Slot {
    Origin,
    Destination,
    Time,
    Trip,
    Class,
    Name,
    Email,
    PhoneNumber,
    PaymentInfo,
}

impl Slot {
    /// Position of the slot in the required fill order.
    pub open spec fn position(self) -> int {
        match self {
            Slot::Origin => 0,
            Slot::Destination => 1,
            Slot::Time => 2,
            Slot::Trip => 3,
            Slot::Class => 4,
            Slot::Name => 5,
            Slot::Email => 6,
            Slot::PhoneNumber => 7,
            Slot::PaymentInfo => 8,
        }
    }

    /// The slot that must already be filled before this one may be set,
    /// if there is one.
    pub open spec fn prerequisite(self) -> Option<Slot> {
        match self {
            Slot::Origin => None,
            Slot::Destination => Some(Slot::Origin),
            Slot::Time => Some(Slot::Destination),
            Slot::Trip => Some(Slot::Time),
            Slot::Class => Some(Slot::Trip),
            Slot::Name => Some(Slot::Class),
            Slot::Email => Some(Slot::Name),
            Slot::PhoneNumber => Some(Slot::Email),
            Slot::PaymentInfo => Some(Slot::PhoneNumber),
        }
    }

    /// Short name of the slot, for messages assembled by callers.
    pub fn name(self) -> (r: &'static str)
        ensures
            r@ == self.spec_name(),
    {
        match self {
            Slot::Origin => "origin",
            Slot::Destination => "destination",
            Slot::Time => "time",
            Slot::Trip => "trip",
            Slot::Class => "class",
            Slot::Name => "name",
            Slot::Email => "email",
            Slot::PhoneNumber => "phone_number",
            Slot::PaymentInfo => "payment_info",
        }
    }

    /// The name each slot renders to.
    pub open spec fn spec_name(self) -> Seq<char> {
        match self {
            Slot::Origin => "origin"@,
            Slot::Destination => "destination"@,
            Slot::Time => "time"@,
            Slot::Trip => "trip"@,
            Slot::Class => "class"@,
            Slot::Name => "name"@,
            Slot::Email => "email"@,
            Slot::PhoneNumber => "phone_number"@,
            Slot::PaymentInfo => "payment_info"@,
        }
    }
}

/// What a booking operation reports when it cannot complete.
///
/// Validation and ordering failures leave the draft unmodified and are
/// recoverable by the caller; a booking failure means the payment slot was
/// already persisted and only the confirmation step needs to be retried;
/// an adapter failure is fatal for the current request.
#[derive(Clone, Copy, Debug, PartialEq, Eq, Structural)]
pub enum Error {
    /// A supplied value failed its type's validating constructor.
    Validation(Slot),
    /// A slot was set, or trips were listed, before a prerequisite slot
    /// was filled. Carries the offending slot and the missing prerequisite.
    Ordering { slot: Slot, missing: Slot },
    /// The confirmation side effect of finalizing failed after the payment
    /// token was accepted and persisted.
    Booking,
    /// The session store is unreachable or corrupt.
    Adapter,
}

} // verus!
