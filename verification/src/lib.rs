//! A micro-benchmark harness: generation of points evenly spaced on a
//! circle, and a textual progress tracker.
//!
//! The circle module lays the points out by their angular step, as exact
//! integers; a caller realises the floating-point coordinates from that
//! layout. The progressbar module tracks a percentage in an exact
//! fixed-point representation and renders a fixed-width textual bar.

pub mod circle;
pub mod progressbar;
