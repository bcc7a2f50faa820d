//! The core of a URL-shortening service: cache-key derivation, the text of
//! short identifiers, and the cache-aside resolution protocol that races a
//! persistent store against a volatile cache.
//!
//! The library performs no I/O and reads no clock. Every operation that
//! needs a store is a step function: the caller performs the requested
//! lookups and writes and reports what came back. A source that does not
//! answer in time is reported as failed.

pub mod bindings;
pub mod config;
pub mod controllers;
pub mod errors;
pub mod identifier;
pub mod model;
pub mod models;
pub mod race;
pub mod repos;
pub mod tasks;
