//! Registerers: projections of decoded records onto the registry.

pub mod throttled;
