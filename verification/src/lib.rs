//! Streaming statistical peak detection with a smoothed z-score method.
//!
//! A [`detector::PeaksDetector`] keeps a sliding window of the most recent
//! observations. While the window is filling it only records values; once the
//! window is full, each new observation is judged against the window's mean
//! and population standard deviation, classified as a [`detector::Peak`]
//! (`High` or `Low`) when it strays more than `threshold` standard deviations
//! from the mean, and the window slides by one: the oldest value leaves and
//! either the raw observation or a dampened replacement enters.
//!
//! The core carries observations as opaque 64-bit words (for instance the bit
//! pattern of a 64-bit float) and never interprets them numerically: the
//! caller owns the numeric interpretation and reports its comparisons through
//! a [`detector::Decision`]. Everything the core does with those words — the
//! fill phase, the strict slide, which word enters the window, and which
//! classification comes back — is stated in contracts and proved.
//!
//! [`laws`] states and proves the library's laws over whole sequences of
//! observations: the fill phase, the window-size invariant, determinism, and
//! what a peak may leave behind in the window.

pub mod detector;
pub mod laws;

pub use detector::{Decision, Peak, PeaksDetector};
