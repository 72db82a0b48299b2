//! Composition pipeline for a machine-readable status document describing a
//! physical space: an immutable base template, a store of live sensor
//! readings, and an ordered chain of modifiers that derive or override fields
//! of the merged snapshot before it is handed to a wire encoder.

pub mod api;
pub mod decimal;
pub mod document;
pub mod modifiers;
pub mod store;
pub mod template;
pub mod composer;
