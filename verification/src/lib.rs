//! Booking engine for a sports-facility reservation site whose calendar
//! opens fifteen days ahead, each midnight.
//!
//! The crate decides and computes; it performs no request and reads no
//! clock. A caller hands it what happened (the time, a reply) and is told
//! what to do next.

pub mod bookings;
pub mod calendar;
pub mod clock;
pub mod config;
pub mod credentials;
pub mod engine;
pub mod error;
pub mod http;
pub mod markup;
pub mod pattern;
pub mod reservation;
pub mod route;
pub mod scheduler;
pub mod session;
pub mod slots;
pub mod text;
