//! Display-ready host metrics: a human-readable uptime, disk totals summed
//! over devices, byte counts rounded to tenths of a binary gigabyte, and the
//! snapshot record assembled from raw readings.

pub mod uptime;
pub mod gigabytes;
pub mod snapshot;
