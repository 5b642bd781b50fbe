//! The conversion rules that the adapters share: prices to micros, billing
//! periods to ISO-8601 durations, native timestamps to Unix milliseconds.

pub mod period;
pub mod price;
pub mod time;
