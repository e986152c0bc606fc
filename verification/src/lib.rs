//! A verified model of an event-ticket sale program.
//!
//! An organizer publishes an event record with a fixed ticket price and
//! capacity; buyers purchase quantities against that capacity, and the
//! payment is debited and credited atomically with the capacity update.
//! Records live in a registry keyed by the deterministic address
//! `(creator, event_id)`, so re-using an event id under the same creator
//! is a creation error rather than an overwrite.

pub mod errors;
pub mod event;
pub mod identity;
pub mod laws;
pub mod registry;

pub use errors::ErrorCode;
pub use event::Event;
pub use identity::Identity;
pub use registry::EventRegistry;
