//! Progressive train-ticket booking: validated value types, an ordered
//! slot-filling booking draft, and a deterministic trip catalog generator.

pub mod error;
pub mod text;
pub mod types;
