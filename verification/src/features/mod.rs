//! Structural feature extraction for the confluence feature store: one
//! source per detection family. Each source reads the plain values of a
//! detection and returns the integer, flag and text features; measured
//! quantities (scores, prices, ratios) are added by the caller.

pub mod table;
pub mod detection;
pub mod sources;
