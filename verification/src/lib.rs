//! A bounded, deduplicated, disk-backed cache of remotely fetched photos.
//!
//! The library holds the catalog model and the policy logic of the cache:
//! loading recovery, the capacity bound, duplicate rejection, the rotating
//! sample served to readers, and the refresh state machine that admits new
//! downloads one candidate at a time. File and network traffic stay with the
//! embedding application, which feeds the results back in as plain values.

pub mod catalog;
pub mod error;
pub mod models;
pub mod refresh;
pub mod sampler;
pub mod track;
