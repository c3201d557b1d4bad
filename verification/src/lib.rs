//! Logic of a CO2 monitor: air-quality classification, the downsampled CO2
//! history behind the average, trend arrow and sparkline, the geometry of the
//! screens, and the decisions of the sensor and display tasks.

pub mod air_quality;
pub mod config;
pub mod display;
pub mod history;
pub mod sensor;
pub mod state;
