//! Core state of a CO2 sensor dashboard: the fetched series of readings, the
//! two coupled sliders that select the visible window, the render cache that
//! decides when a chart must be redrawn, and the load/refresh state machine.
//!
//! Everything here is plain data and verified logic. Network transport,
//! JSON decoding and the actual drawing of pixels live outside the library
//! and talk to it through the event functions of [`controller::Dashboard`].

pub mod controller;
pub mod range;
pub mod reading;
pub mod render;
