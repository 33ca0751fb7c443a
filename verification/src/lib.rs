//! A verified core for a family of device-polling programs that share
//! one publish/subscribe message bus: topic filters and their matching,
//! the subscription registry and its dispatch decisions, the typed
//! command channel, the register encodings of the charging station,
//! and the plain models and settings the programs are built from.
pub mod actuators;
pub mod client;
pub mod command;
pub mod config;
pub mod ds18b20;
pub mod hass;
pub mod modbus;
pub mod registers;
pub mod sml;
pub mod station;
pub mod timescaledb;
pub mod topic;
