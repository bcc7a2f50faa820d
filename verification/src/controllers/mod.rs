//! What each request of the service decides.

pub mod pages;
pub mod shorts;
pub mod stats;
