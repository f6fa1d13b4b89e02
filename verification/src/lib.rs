//! Resource profiling with energy and carbon estimates.
//!
//! A profiling session collects resource samples between a start and a stop;
//! stopping it folds the samples into one run record with derived energy and
//! carbon figures.
//!
//! # Units
//!
//! Every quantity is an integer. A quantity that is fractional by nature is
//! held as a count of millionths of its unit, and the field's name says so:
//!
//! | suffix               | unit                                    |
//! |----------------------|-----------------------------------------|
//! | `_micro_pct`         | millionths of a percent                 |
//! | `_micro_mb`          | millionths of a mebibyte                |
//! | `_micro_w`           | microwatts                              |
//! | `_micro_wh`          | microwatt-hours (10^9 to the kWh)       |
//! | `_micro_g`           | micrograms of CO2                       |
//! | `_micros` (PUE)      | millionths, dimensionless               |
//! | `_ms`                | milliseconds                            |
//! | `_per_sec`           | bytes per second                        |
//!
//! A derived value is the exact rational of its formula, rounded toward zero
//! once, and held to the range of its type.

pub mod aggregate;
pub mod clock;
pub mod decimal;
pub mod estimate;
pub mod live;
pub mod manager;
pub mod poller;
pub mod reference;
pub mod sample;
pub mod session;
pub mod settings;
pub mod store;
pub mod units;
