//! Fetching schedule events from a groupware calendar, normalising them,
//! and rendering them as CSV.

pub mod apis;
pub mod config;
pub mod models;
pub mod services;
pub mod utils;
