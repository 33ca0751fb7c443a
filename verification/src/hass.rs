//! Plain models of the Home Assistant entities the devices announce,
//! the topics the announcements and states are published on, and the
//! settings that steer them.
pub mod config;
pub mod discovery;
pub mod models;
pub mod state;
