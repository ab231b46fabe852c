//! Break-even projection engine for repeated-task optimizations.
//!
//! Given the time a task costs today, the time it would cost after an
//! optimization, the one-time investment the optimization needs, and how often
//! the task recurs, the engine projects cumulative time spent over a horizon
//! of days and reports when (if ever) the optimization pays for itself.
//!
//! All quantities are exact rationals (see [`rat::Rat`]); nothing is rounded
//! until a value is rendered as text.

pub mod breakeven;
pub mod calendar;
pub mod curve;
pub mod label;
pub mod rat;
pub mod scenario;
pub mod unit;
