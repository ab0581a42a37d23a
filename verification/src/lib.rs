//! A deduplication counter: for each identifier, how often it was seen, when
//! first and when last, with a retention window fixed when the record is
//! created.
//!
//! The library decides; the caller performs the store round trips and hands
//! the outcomes back.

pub mod text;
pub mod identifier;
pub mod error;
pub mod json;
pub mod record;
pub mod response;
pub mod service;
pub mod store;
