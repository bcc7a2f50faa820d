//! Values that cross the HTTP surface.

pub mod stats;
