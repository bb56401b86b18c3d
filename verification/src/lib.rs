//! Driver for the Chirp capacitive soil-moisture sensor, which also measures
//! light and temperature, on a two-wire bus.
//!
//! The driver turns each operation into one fixed-layout register transaction
//! and decodes the bytes that come back. Every transaction it performs is
//! recorded in a ghost trace, and the contracts of [`Chirp`]'s methods say
//! exactly which frames were put on the bus and how the result follows from
//! the transport's answer.

pub mod decode;
pub mod driver;
pub mod register;
pub mod transport;

pub use crate::driver::{Chirp, DEFAULT_ADDRESS};
pub use crate::register::Register;
pub use crate::transport::{Bus, Exchange, Transport};
