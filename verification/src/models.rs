//! The normalised event model.

pub mod event;
