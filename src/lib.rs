//! A log-ingestion library: it filters batches of structured log entries down
//! to the error level, stamps each accepted entry with a timestamp where it
//! lacks one, and turns it into the record that a background writer stores.
mod clock;
pub mod entry;
pub mod ingest;
pub mod json;
pub mod laws;
pub mod worker;
