//! Formats structured log events as single-line JSON records in the
//! structured-logging schema of a cloud logging provider.

pub mod clock;
pub mod error;
pub mod event;
pub mod formatter;
pub mod json;
pub mod severity;
pub mod trace;
