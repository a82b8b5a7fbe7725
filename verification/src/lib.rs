//! A declarative event-and-dialog framework for editing a single person
//! record: per-field trigger and result events, modal dialog windows with
//! input filtering, a color picker with an exact hex readout, and an
//! aggregator event that fans out to the per-field streams.

pub mod change_color;
pub mod color;
pub mod dialog;
pub mod events;
pub mod handlers;
pub mod kernel;
pub mod numeric;
pub mod person;
