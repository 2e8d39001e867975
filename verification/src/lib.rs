//! Bridges a window manager and an audio server to a home-automation hub
//! over a retained-message broker.

pub mod availability;
pub mod broker;
pub mod config;
pub mod display;
pub mod homeassistant;
pub mod json;
pub mod pulseaudio;
pub mod pulsectl;
pub mod sway;
pub mod text;
