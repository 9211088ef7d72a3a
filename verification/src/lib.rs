//! Control logic of a battery-powered watering device and of the job service
//! it talks to.
//!
//! All quantities are fixed point: voltages are millivolts, charge is
//! thousandths of a percent, time is micro- or milliseconds. Hardware and
//! network are driven by the caller; the state machines in this crate decide
//! what is done next.

pub mod accu;
pub mod api_esp32;
pub mod api_frontend;
pub mod calendar;
pub mod config;
pub mod global_state;
pub mod model;
pub mod pumps;
pub mod query;
pub mod routine;
pub mod state;
pub mod stateholder;
pub mod status_signaler;
pub mod watering_test;
pub mod wifi_connect;
