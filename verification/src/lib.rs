//! Core of a vehicle dashboard: telemetry ingestion into a latest-value
//! snapshot, and exclusive control of one PWM indicator light.

pub mod events;
pub mod led_manager;
pub mod led_pwm;
pub mod model;
pub mod refresh;
pub mod subscribers;
pub mod trip_time;
pub mod wire;
