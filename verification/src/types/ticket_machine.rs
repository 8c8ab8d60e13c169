//! The booking draft: nine optional slots filled one per operation in a
//! fixed order, with an ordering guard on every transition.

use crate::error::{Error, Slot};
use crate::text::{dec_of, dec_of_int, push_dec_i64, push_dec_u128};
use crate::types::class::Class;
use crate::types::customer_details::{Email, Name, PhoneNumber};
use crate::types::departure_or_arrival::{instant_in_range, DepartureOrArrival, FutureTimestamp};
use crate::types::location::Location;
use crate::types::payment_info::{redaction_placeholder, PaymentInfo};
use crate::types::trip::{matches_schedule, spec_anchor, Trip, TripId, MAX_TRIPS};
use vstd::prelude::*;

verus! {

/// The per-session, progressively filled booking record. Each operation
/// checks that the immediate prerequisite slot is filled, then fills one
/// slot; a rejected operation leaves the draft untouched.
///
/// The fields are plain options so that a stored draft can be inspected and
/// rebuilt wholesale, but the values inside them can only come from their
/// types' validating constructors.
#[derive(Clone, PartialEq, Eq)]
pub struct TicketMachine {
    pub origin: Option<Location>,
    pub destination: Option<Location>,
    pub time: Option<DepartureOrArrival>,
    pub trip: Option<TripId>,
    pub class: Option<Class>,
    pub name: Option<Name>,
    pub email: Option<Email>,
    pub phone_number: Option<PhoneNumber>,
    pub payment_info: Option<PaymentInfo>,
}

impl Default for TicketMachine {
    /// The empty draft: every slot unset.
    fn default() -> (r: Self)
        ensures
            r == TicketMachine::spec_empty(),
    {
        TicketMachine {
            origin: None,
            destination: None,
            time: None,
            trip: None,
            class: None,
            name: None,
            email: None,
            phone_number: None,
            payment_info: None,
        }
    }
}

impl TicketMachine {
    /// The draft every session starts from.
    pub open spec fn spec_empty() -> TicketMachine {
        TicketMachine {
            origin: None,
            destination: None,
            time: None,
            trip: None,
            class: None,
            name: None,
            email: None,
            phone_number: None,
            payment_info: None,
        }
    }

    /// Whether a given slot is filled.
    pub open spec fn slot_set(self, s: Slot) -> bool {
        match s {
            Slot::Origin => self.origin is Some,
            Slot::Destination => self.destination is Some,
            Slot::Time => self.time is Some,
            Slot::Trip => self.trip is Some,
            Slot::Class => self.class is Some,
            Slot::Name => self.name is Some,
            Slot::Email => self.email is Some,
            Slot::PhoneNumber => self.phone_number is Some,
            Slot::PaymentInfo => self.payment_info is Some,
        }
    }

    /// The ordering invariant of every reachable draft: a slot is filled
    /// only if its prerequisite is, so the filled slots form a prefix of
    /// the required order. Every transition preserves it.
    pub open spec fn ordered(self) -> bool {
        &&& self.destination is Some ==> self.origin is Some
        &&& self.time is Some ==> self.destination is Some
        &&& self.trip is Some ==> self.time is Some
        &&& self.class is Some ==> self.trip is Some
        &&& self.name is Some ==> self.class is Some
        &&& self.email is Some ==> self.name is Some
        &&& self.phone_number is Some ==> self.email is Some
        &&& self.payment_info is Some ==> self.phone_number is Some
    }

    /// The ordering invariant, slot by slot: a draft is ordered exactly
    /// when every filled slot's prerequisite is filled too.
    pub proof fn lemma_ordered_means_prerequisites(self)
        ensures
            self.ordered() <==> (forall|s: Slot|
                #[trigger] self.slot_set(s) ==> (s.prerequisite() matches Some(p)
                    ==> self.slot_set(p))),
    {
        if forall|s: Slot|
            #[trigger] self.slot_set(s) ==> (s.prerequisite() matches Some(p) ==> self.slot_set(
                p,
            )) {
            assert(self.slot_set(Slot::Destination) ==> self.slot_set(Slot::Origin));
            assert(self.slot_set(Slot::Time) ==> self.slot_set(Slot::Destination));
            assert(self.slot_set(Slot::Trip) ==> self.slot_set(Slot::Time));
            assert(self.slot_set(Slot::Class) ==> self.slot_set(Slot::Trip));
            assert(self.slot_set(Slot::Name) ==> self.slot_set(Slot::Class));
            assert(self.slot_set(Slot::Email) ==> self.slot_set(Slot::Name));
            assert(self.slot_set(Slot::PhoneNumber) ==> self.slot_set(Slot::Email));
            assert(self.slot_set(Slot::PaymentInfo) ==> self.slot_set(Slot::PhoneNumber));
        }
    }

    /// In an ordered draft the filled slots form a prefix of the fill
    /// order: every slot placed before a filled slot is itself filled.
    pub proof fn lemma_ordered_prefix(self, s: Slot, p: Slot)
        requires
            self.ordered(),
            self.slot_set(s),
            p.position() < s.position(),
        ensures
            self.slot_set(p),
    {
    }

    /// Sets the origin station. The first slot has no prerequisite, so
    /// this always succeeds; a session's draft is created by setting the
    /// origin first.
    pub fn set_origin(&mut self, origin: Location)
        ensures
            *final(self) == (TicketMachine { origin: Some(origin), ..*old(self) }),
            old(self).ordered() ==> final(self).ordered(),
    {
        self.origin = Some(origin);
    }

    /// Sets the destination station; fails with an ordering error while
    /// the origin is unset, leaving the draft unchanged.
    pub fn set_destination(&mut self, destination: Location) -> (r: Result<(), Error>)
        ensures
            old(self).origin is Some ==> r is Ok && *final(self) == (TicketMachine {
                destination: Some(destination),
                ..*old(self)
            }),
            old(self).origin is None ==> *final(self) == *old(self) && r == Err::<(), Error>(
                Error::Ordering { slot: Slot::Destination, missing: Slot::Origin },
            ),
            old(self).ordered() ==> final(self).ordered(),
    {
        if self.origin.is_some() {
            self.destination = Some(destination);
            Ok(())
        } else {
            Err(Error::Ordering { slot: Slot::Destination, missing: Slot::Origin })
        }
    }

    /// Sets the time constraint, in either role; fails with an ordering
    /// error while the destination is unset, leaving the draft unchanged.
    pub fn set_time(&mut self, time: DepartureOrArrival) -> (r: Result<(), Error>)
        ensures
            old(self).destination is Some ==> r is Ok && *final(self) == (TicketMachine {
                time: Some(time),
                ..*old(self)
            }),
            old(self).destination is None ==> *final(self) == *old(self) && r == Err::<(), Error>(
                Error::Ordering { slot: Slot::Time, missing: Slot::Destination },
            ),
            old(self).ordered() ==> final(self).ordered(),
    {
        if self.destination.is_some() {
            self.time = Some(time);
            Ok(())
        } else {
            Err(Error::Ordering { slot: Slot::Time, missing: Slot::Destination })
        }
    }

    /// Sets a departure-time constraint.
    pub fn set_departure(&mut self, departure: FutureTimestamp) -> (r: Result<(), Error>)
        ensures
            old(self).destination is Some ==> r is Ok && *final(self) == (TicketMachine {
                time: Some(DepartureOrArrival::Departure(departure)),
                ..*old(self)
            }),
            old(self).destination is None ==> *final(self) == *old(self) && r == Err::<(), Error>(
                Error::Ordering { slot: Slot::Time, missing: Slot::Destination },
            ),
            old(self).ordered() ==> final(self).ordered(),
    {
        self.set_time(DepartureOrArrival::Departure(departure))
    }

    /// Sets an arrival-time constraint.
    pub fn set_arrival(&mut self, arrival: FutureTimestamp) -> (r: Result<(), Error>)
        ensures
            old(self).destination is Some ==> r is Ok && *final(self) == (TicketMachine {
                time: Some(DepartureOrArrival::Arrival(arrival)),
                ..*old(self)
            }),
            old(self).destination is None ==> *final(self) == *old(self) && r == Err::<(), Error>(
                Error::Ordering { slot: Slot::Time, missing: Slot::Destination },
            ),
            old(self).ordered() ==> final(self).ordered(),
    {
        self.set_time(DepartureOrArrival::Arrival(arrival))
    }

    /// Records the chosen trip, by the identifier echoed from a previous
    /// listing; fails with an ordering error while the time is unset,
    /// leaving the draft unchanged.
    pub fn set_trip(&mut self, trip: TripId) -> (r: Result<(), Error>)
        ensures
            old(self).time is Some ==> r is Ok && *final(self) == (TicketMachine {
                trip: Some(trip),
                ..*old(self)
            }),
            old(self).time is None ==> *final(self) == *old(self) && r == Err::<(), Error>(
                Error::Ordering { slot: Slot::Trip, missing: Slot::Time },
            ),
            old(self).ordered() ==> final(self).ordered(),
    {
        if self.time.is_some() {
            self.trip = Some(trip);
            Ok(())
        } else {
            Err(Error::Ordering { slot: Slot::Trip, missing: Slot::Time })
        }
    }

    /// Sets the fare class; fails with an ordering error while no trip is
    /// chosen, leaving the draft unchanged.
    pub fn set_class(&mut self, class: Class) -> (r: Result<(), Error>)
        ensures
            old(self).trip is Some ==> r is Ok && *final(self) == (TicketMachine {
                class: Some(class),
                ..*old(self)
            }),
            old(self).trip is None ==> *final(self) == *old(self) && r == Err::<(), Error>(
                Error::Ordering { slot: Slot::Class, missing: Slot::Trip },
            ),
            old(self).ordered() ==> final(self).ordered(),
    {
        if self.trip.is_some() {
            self.class = Some(class);
            Ok(())
        } else {
            Err(Error::Ordering { slot: Slot::Class, missing: Slot::Trip })
        }
    }

    /// Sets the passenger name; fails with an ordering error while the
    /// class is unset, leaving the draft unchanged.
    pub fn set_name(&mut self, name: Name) -> (r: Result<(), Error>)
        ensures
            old(self).class is Some ==> r is Ok && *final(self) == (TicketMachine {
                name: Some(name),
                ..*old(self)
            }),
            old(self).class is None ==> *final(self) == *old(self) && r == Err::<(), Error>(
                Error::Ordering { slot: Slot::Name, missing: Slot::Class },
            ),
            old(self).ordered() ==> final(self).ordered(),
    {
        if self.class.is_some() {
            self.name = Some(name);
            Ok(())
        } else {
            Err(Error::Ordering { slot: Slot::Name, missing: Slot::Class })
        }
    }

    /// Sets the contact email; fails with an ordering error while the name
    /// is unset, leaving the draft unchanged.
    pub fn set_email(&mut self, email: Email) -> (r: Result<(), Error>)
        ensures
            old(self).name is Some ==> r is Ok && *final(self) == (TicketMachine {
                email: Some(email),
                ..*old(self)
            }),
            old(self).name is None ==> *final(self) == *old(self) && r == Err::<(), Error>(
                Error::Ordering { slot: Slot::Email, missing: Slot::Name },
            ),
            old(self).ordered() ==> final(self).ordered(),
    {
        if self.name.is_some() {
            self.email = Some(email);
            Ok(())
        } else {
            Err(Error::Ordering { slot: Slot::Email, missing: Slot::Name })
        }
    }

    /// Sets the contact phone number; fails with an ordering error while
    /// the email is unset, leaving the draft unchanged.
    pub fn set_phone_number(&mut self, phone_number: PhoneNumber) -> (r: Result<(), Error>)
        ensures
            old(self).email is Some ==> r is Ok && *final(self) == (TicketMachine {
                phone_number: Some(phone_number),
                ..*old(self)
            }),
            old(self).email is None ==> *final(self) == *old(self) && r == Err::<(), Error>(
                Error::Ordering { slot: Slot::PhoneNumber, missing: Slot::Email },
            ),
            old(self).ordered() ==> final(self).ordered(),
    {
        if self.email.is_some() {
            self.phone_number = Some(phone_number);
            Ok(())
        } else {
            Err(Error::Ordering { slot: Slot::PhoneNumber, missing: Slot::Email })
        }
    }

    /// Captures the payment token into the final slot — the first half of
    /// finalizing a booking; fails with an ordering error while the phone
    /// number is unset, leaving the draft unchanged. Once the new snapshot
    /// is persisted, the collaborator runs the confirmation side effect and
    /// [`confirmation_outcome`] decides what finalize reports.
    pub fn book_trip(&mut self, payment_info: PaymentInfo) -> (r: Result<(), Error>)
        ensures
            old(self).phone_number is Some ==> r is Ok && *final(self) == (TicketMachine {
                payment_info: Some(payment_info),
                ..*old(self)
            }),
            old(self).phone_number is None ==> *final(self) == *old(self) && r == Err::<
                (),
                Error,
            >(Error::Ordering { slot: Slot::PaymentInfo, missing: Slot::PhoneNumber }),
            old(self).ordered() ==> final(self).ordered(),
    {
        if self.phone_number.is_some() {
            self.payment_info = Some(payment_info);
            Ok(())
        } else {
            Err(Error::Ordering { slot: Slot::PaymentInfo, missing: Slot::PhoneNumber })
        }
    }

    /// Lists candidate trips for the draft's endpoints and time constraint;
    /// fails with an ordering error while any of the three is unset. Never
    /// mutates the draft.
    pub fn list_trips(&self) -> (r: Result<Vec<Trip>, Error>)
        ensures
            self.origin is Some && self.destination is Some && self.time is Some ==> (r matches Ok(
                trips,
            ) && trips@.len() == MAX_TRIPS && (exists|now: int|
                instant_in_range(now) && matches_schedule(
                    trips@,
                    self.origin->0@,
                    self.destination->0@,
                    spec_anchor(self.time->0),
                    now,
                ))),
            self.origin is None ==> r == Err::<Vec<Trip>, Error>(
                Error::Ordering { slot: Slot::Trip, missing: Slot::Origin },
            ),
            self.origin is Some && self.destination is None ==> r == Err::<Vec<Trip>, Error>(
                Error::Ordering { slot: Slot::Trip, missing: Slot::Destination },
            ),
            self.origin is Some && self.destination is Some && self.time is None ==> r == Err::<
                Vec<Trip>,
                Error,
            >(Error::Ordering { slot: Slot::Trip, missing: Slot::Time }),
    {
        match (&self.origin, &self.destination, &self.time) {
            (Some(origin), Some(destination), Some(time)) => {
                Ok(Trip::list_matching(origin.clone(), destination.clone(), *time))
            },
            (None, _, _) => Err(Error::Ordering { slot: Slot::Trip, missing: Slot::Origin }),
            (Some(_), None, _) => Err(
                Error::Ordering { slot: Slot::Trip, missing: Slot::Destination },
            ),
            (Some(_), Some(_), None) => Err(
                Error::Ordering { slot: Slot::Trip, missing: Slot::Time },
            ),
        }
    }
}

/// How an unset or filled station slot renders.
pub open spec fn spec_render_location(o: Option<Location>) -> Seq<char> {
    match o {
        None => "None"@,
        Some(l) => "Some(Location(\""@ + l@ + "\"))"@,
    }
}

fn push_location(s: &mut String, o: &Option<Location>)
    ensures
        final(s)@ == old(s)@ + spec_render_location(*o),
{
    match o {
        None => s.append("None"),
        Some(l) => {
            s.append("Some(Location(\"");
            s.append(l.as_str());
            s.append("\"))");
        },
    }
    proof {
        assert(s@ =~= old(s)@ + spec_render_location(*o));
    }
}

/// How an unset or filled time slot renders: the role, then the instant in
/// milliseconds.
pub open spec fn spec_render_time(o: Option<DepartureOrArrival>) -> Seq<char> {
    match o {
        None => "None"@,
        Some(DepartureOrArrival::Departure(t)) => "Some(Departure(FutureTimestamp("@ + dec_of_int(
            t@ as int,
        ) + ")))"@,
        Some(DepartureOrArrival::Arrival(t)) => "Some(Arrival(FutureTimestamp("@ + dec_of_int(
            t@ as int,
        ) + ")))"@,
    }
}

fn push_time(s: &mut String, o: &Option<DepartureOrArrival>)
    ensures
        final(s)@ == old(s)@ + spec_render_time(*o),
{
    match o {
        None => s.append("None"),
        Some(DepartureOrArrival::Departure(t)) => {
            s.append("Some(Departure(FutureTimestamp(");
            push_dec_i64(s, t.millis());
            s.append(")))");
        },
        Some(DepartureOrArrival::Arrival(t)) => {
            s.append("Some(Arrival(FutureTimestamp(");
            push_dec_i64(s, t.millis());
            s.append(")))");
        },
    }
    proof {
        assert(s@ =~= old(s)@ + spec_render_time(*o));
    }
}

/// How an unset or chosen trip slot renders: the identifier bits in decimal.
pub open spec fn spec_render_trip(o: Option<TripId>) -> Seq<char> {
    match o {
        None => "None"@,
        Some(id) => "Some(TripId("@ + dec_of(id@ as nat) + "))"@,
    }
}

fn push_trip(s: &mut String, o: &Option<TripId>)
    ensures
        final(s)@ == old(s)@ + spec_render_trip(*o),
{
    match o {
        None => s.append("None"),
        Some(id) => {
            s.append("Some(TripId(");
            push_dec_u128(s, id.raw());
            s.append("))");
        },
    }
    proof {
        assert(s@ =~= old(s)@ + spec_render_trip(*o));
    }
}

/// How an unset or filled class slot renders.
pub open spec fn spec_render_class(o: Option<Class>) -> Seq<char> {
    match o {
        None => "None"@,
        Some(Class::First) => "Some(First)"@,
        Some(Class::Second) => "Some(Second)"@,
    }
}

fn push_class(s: &mut String, o: &Option<Class>)
    ensures
        final(s)@ == old(s)@ + spec_render_class(*o),
{
    match o {
        None => s.append("None"),
        Some(Class::First) => s.append("Some(First)"),
        Some(Class::Second) => s.append("Some(Second)"),
    }
}

/// How an unset or filled name slot renders.
pub open spec fn spec_render_name(o: Option<Name>) -> Seq<char> {
    match o {
        None => "None"@,
        Some(n) => "Some(Name(\""@ + n@ + "\"))"@,
    }
}

fn push_name(s: &mut String, o: &Option<Name>)
    ensures
        final(s)@ == old(s)@ + spec_render_name(*o),
{
    match o {
        None => s.append("None"),
        Some(n) => {
            s.append("Some(Name(\"");
            s.append(n.as_str());
            s.append("\"))");
        },
    }
    proof {
        assert(s@ =~= old(s)@ + spec_render_name(*o));
    }
}

/// How an unset or filled email slot renders.
pub open spec fn spec_render_email(o: Option<Email>) -> Seq<char> {
    match o {
        None => "None"@,
        Some(e) => "Some(Email(\""@ + e@ + "\"))"@,
    }
}

fn push_email(s: &mut String, o: &Option<Email>)
    ensures
        final(s)@ == old(s)@ + spec_render_email(*o),
{
    match o {
        None => s.append("None"),
        Some(e) => {
            s.append("Some(Email(\"");
            s.append(e.as_str());
            s.append("\"))");
        },
    }
    proof {
        assert(s@ =~= old(s)@ + spec_render_email(*o));
    }
}

/// How an unset or filled phone-number slot renders.
pub open spec fn spec_render_phone(o: Option<PhoneNumber>) -> Seq<char> {
    match o {
        None => "None"@,
        Some(p) => "Some(PhoneNumber(\""@ + p@ + "\"))"@,
    }
}

fn push_phone(s: &mut String, o: &Option<PhoneNumber>)
    ensures
        final(s)@ == old(s)@ + spec_render_phone(*o),
{
    match o {
        None => s.append("None"),
        Some(p) => {
            s.append("Some(PhoneNumber(\"");
            s.append(p.as_str());
            s.append("\"))");
        },
    }
    proof {
        assert(s@ =~= old(s)@ + spec_render_phone(*o));
    }
}

/// How an unset or filled payment slot renders: the fixed redaction
/// placeholder stands in for the token, whatever it holds.
pub open spec fn spec_render_payment(o: Option<PaymentInfo>) -> Seq<char> {
    match o {
        None => "None"@,
        Some(_) => "Some(PaymentInfo(\""@ + redaction_placeholder() + "\"))"@,
    }
}

fn push_payment(s: &mut String, o: &Option<PaymentInfo>)
    ensures
        final(s)@ == old(s)@ + spec_render_payment(*o),
{
    match o {
        None => s.append("None"),
        Some(p) => {
            s.append("Some(PaymentInfo(\"");
            s.append(p.redacted());
            s.append("\"))");
        },
    }
    proof {
        assert(s@ =~= old(s)@ + spec_render_payment(*o));
    }
}

impl TicketMachine {
    /// The one textual form of a draft, slot by slot. The payment token
    /// never appears in it: that slot shows the fixed redaction
    /// placeholder whenever it is filled.
    pub open spec fn spec_render(self) -> Seq<char> {
        "TicketMachine { origin: "@ + spec_render_location(self.origin) + ", destination: "@
            + spec_render_location(self.destination) + ", time: "@ + spec_render_time(self.time)
            + ", trip: "@ + spec_render_trip(self.trip) + ", class: "@ + spec_render_class(
            self.class,
        ) + ", name: "@ + spec_render_name(self.name) + ", email: "@ + spec_render_email(self.email)
            + ", phone_number: "@ + spec_render_phone(self.phone_number) + ", payment_info: "@
            + spec_render_payment(self.payment_info) + " }"@
    }

    /// Renders the draft for human-readable output.
    pub fn render(&self) -> (r: String)
        ensures
            r@ == self.spec_render(),
    {
        let mut s = String::new();
        s.append("TicketMachine { origin: ");
        push_location(&mut s, &self.origin);
        s.append(", destination: ");
        push_location(&mut s, &self.destination);
        s.append(", time: ");
        push_time(&mut s, &self.time);
        s.append(", trip: ");
        push_trip(&mut s, &self.trip);
        s.append(", class: ");
        push_class(&mut s, &self.class);
        s.append(", name: ");
        push_name(&mut s, &self.name);
        s.append(", email: ");
        push_email(&mut s, &self.email);
        s.append(", phone_number: ");
        push_phone(&mut s, &self.phone_number);
        s.append(", payment_info: ");
        push_payment(&mut s, &self.payment_info);
        s.append(" }");
        proof {
            assert(s@ =~= self.spec_render());
        }
        s
    }
}

/// Rendering redacts the payment token: two drafts equal in every other
/// slot, each holding some payment token — possibly different ones, of any
/// content — render to exactly the same text.
pub proof fn lemma_render_redacts(a: TicketMachine, b: TicketMachine)
    requires
        a.origin == b.origin,
        a.destination == b.destination,
        a.time == b.time,
        a.trip == b.trip,
        a.class == b.class,
        a.name == b.name,
        a.email == b.email,
        a.phone_number == b.phone_number,
        a.payment_info is Some,
        b.payment_info is Some,
    ensures
        a.spec_render() == b.spec_render(),
{
}

/// Decides what finalize reports once the external confirmation
/// collaborator has run: on success the finalized draft stands; on failure
/// finalize fails with a booking error while the already-persisted draft
/// stays as it is, so finalize is safe to retry.
pub fn confirmation_outcome(confirmed: bool) -> (r: Result<(), Error>)
    ensures
        confirmed <==> r is Ok,
        !confirmed ==> r == Err::<(), Error>(Error::Booking),
{
    if confirmed {
        Ok(())
    } else {
        Err(Error::Booking)
    }
}

} // verus!
