//! A verified model of hardware interrupt registration, delivery and
//! revocation.
//!
//! The crate binds a typed handler to a hardware line through a registration
//! object, splits handling between a non-blocking hard stage and a
//! sleep-capable thread stage, and latches shared handler data behind a
//! revocation flag so that a holder can invalidate it while deliveries are
//! still arriving.  The hardware interrupt controller itself is an external
//! collaborator; it is modelled here as an explicit state machine
//! ([`subsystem::HwSubsystem`]) so that the registration lifecycle — publish a
//! correlation token once, tear the binding down exactly once, never deliver
//! after teardown — can be stated and proved.

pub mod context;
pub mod cpu;
pub mod flags;
pub mod handler;
pub mod registration;
pub mod revocable;
pub mod subsystem;
pub mod threaded;
