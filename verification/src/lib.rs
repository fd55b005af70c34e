//! Verified core of a service that tracks how many players use the stable
//! and the lazer clients of osu!: the measurements it stores, the cached
//! responses it serves, how stream counts are summed up, which history rows
//! feed the adoption regression and how a history request is routed.

pub mod time;
pub mod types;
pub mod models;
pub mod changelog;
pub mod regression;
pub mod history;
