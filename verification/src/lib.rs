//! Windowed-fetch-and-idempotent-persist pipeline for energy-production
//! samples.
//!
//! Each run computes a sliding fetch window, projects the raw records that
//! the metering API returned for that window into normalized samples, and
//! persists them into a durable single-table store that silently skips
//! timestamps it already holds.

pub mod fetch;
pub mod pipeline;
pub mod record;
pub mod store;
pub mod window;
