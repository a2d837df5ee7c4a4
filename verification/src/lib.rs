//! Feedback effects for a DualSense controller: adaptive-trigger resistance
//! profiles and the lightbar colour, encoded into the fixed 78-byte output
//! report that the controller's firmware reads.

pub mod effects;
pub mod report;
pub mod session;
