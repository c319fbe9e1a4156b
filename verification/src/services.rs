//! Operations built on the event model.

pub mod calendar_sync_service;
pub mod export_events_service;
