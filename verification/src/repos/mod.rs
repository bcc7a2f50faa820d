//! Access protocols for the two stores.

pub mod cache;
pub mod db;
