//! Isolates a stereo stream to its left or right channel, or mirrors one
//! channel into both, on its way from a virtual audio cable to the user's
//! headphones.
//!
//! The library holds everything that is decided or computed; devices, the
//! system's routing service and the window are left to the program around it.

pub mod app;
pub mod config;
pub mod devices;
pub mod display;
pub mod dsp;
pub mod engine;
pub mod handles;
pub mod pipeline;
pub mod ring;
pub mod routes;
pub mod routing;
pub mod selection;
pub mod sessions;
pub mod startup;
pub mod text;
pub mod update;
