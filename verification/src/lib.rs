//! Normalisation of raw terminal notifications into the one event type that an
//! interactive terminal application consumes.
//!
//! The raw notifications are crossterm's: [`crossterm::event::Event`] and the
//! types it is made of. [`Event::from_crossterm_event`] decides, for each of
//! them, which [`Event`] it becomes, if any. The decision is a pure function
//! of the notification and is stated exactly by [`Event::classified`].
pub mod escape_sequence;
pub mod event;
pub mod laws;
pub mod raw;

pub use escape_sequence::EscapeSequence;
pub use event::Event;
