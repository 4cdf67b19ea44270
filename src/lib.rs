//! Login screen of a peer-to-peer trading client, as a pure state machine.
//!
//! The screen holds the seed phrase typed so far and the theme. Each user
//! interaction is a [`Message`]; [`MostroLogin::update`] turns the state and a
//! message into the next state and at most one [`Effect`] for the host to
//! perform, and [`MostroLogin::view`] describes what the host draws.

pub mod laws;
pub mod screen;
pub mod seed;
pub mod style;
pub mod view;

pub use screen::{Effect, Message, MostroLogin};
