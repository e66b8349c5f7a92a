//! Display a signed time span in a human readable way.
//!
//! A [`HumanTime`] is a signed span of time: a non-negative magnitude
//! (whole seconds plus a sub-second nanosecond part) together with a sign
//! flag. It can be rendered as an English phrase such as `"in 2 minutes"`,
//! `"3 days ago"` or `"now"`, either as a rough single-unit approximation
//! or as a precise multi-unit breakdown.
//!
//! Months and years use fixed lengths (30 days and 365 days): the phrases
//! are approximations for display, not calendar arithmetic.

pub mod humantime;

pub use crate::humantime::{Accuracy, HumanTime, Humanize, Tense, TimePeriod};
