//! A small export handler: given a text payload and the user's answer to a
//! save-file dialog, it decides the outcome of the export and records the
//! written file, with the one distinguished failure being cancellation.
//!
//! The dialog itself and the real filesystem belong to the host application;
//! this crate holds the decisions and the data they act on.

pub mod export;
pub mod filename;
pub mod store;
