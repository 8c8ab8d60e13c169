//! The validated value types of the booking draft, the draft itself, and the
//! trip catalog generator.

pub mod class;
pub mod customer_details;
pub mod departure_or_arrival;
pub mod location;
pub mod payment_info;
pub mod ticket_machine;
pub mod trip;
