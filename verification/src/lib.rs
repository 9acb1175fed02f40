//! The decision-making core of a SoundCloud account statistics client.
//!
//! Nothing in this crate performs I/O. Each exchange with the service is
//! split into a [`transport::Request`] that the crate describes, the
//! [`transport::Outcome`] that the caller reports back, and a verified
//! function that says what follows from that outcome. [`account`] strings
//! the exchanges together; [`laws`] states what holds across them.

pub mod account;
pub mod config;
pub mod error;
pub mod laws;
pub mod model;
pub mod profile;
pub mod record;
pub mod report;
pub mod text;
pub mod token;
pub mod tracks;
pub mod transport;
