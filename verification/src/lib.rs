//! Measurement core for a pointing-device DPI checker.
//!
//! The user drags the device a known physical distance; the crate relates the
//! resulting on-screen pixel displacement to the DPI the device claims to
//! have. All arithmetic here is exact: distances are kept as squared integer
//! pixel counts and percentages as integer fractions, so every result is
//! verified rather than approximated.

pub mod deviation;
pub mod geometry;
pub mod measure;
