//! Bridges the state of a desktop to an MQTT broker and registers the
//! resulting entities with a home-automation hub.

pub mod backlight;
pub mod config;
pub mod custom_command;
pub mod extensions;
pub mod home_assistant;
pub mod idle;
pub mod mqtt;
pub mod notifications;
pub mod number;
pub mod sensors;
pub mod state;
pub mod text;
pub mod topics;
