//! The remote scheduling service as this crate sees it.

pub mod garoon;
pub mod garoon_rest;
