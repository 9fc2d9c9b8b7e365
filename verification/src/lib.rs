//! Probe for NFC/smart-card reader availability.
//!
//! The host's smart-card service is asked for the list of attached readers
//! in two fallible steps: establish a user-scoped session, then enumerate
//! the readers. This library holds every decision about what those steps
//! observed: [`probe::classify`] maps each possible outcome to its exact
//! [`status::NfcStatus`], an availability flag together with a
//! human-readable message. The embedding application makes the two platform
//! calls and hands their outcome over as a [`probe::ProbeOutcome`].

pub mod probe;
pub mod status;

pub use probe::ProbeOutcome;
pub use probe::classify;
pub use status::NfcStatus;
