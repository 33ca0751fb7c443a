//! https://www.home-assistant.io/integrations/#search/mqtt
pub mod availability;
pub mod binary_sensor;
pub mod device;
pub mod device_class;
pub mod entity_category;
pub mod number;
pub mod qos;
pub mod select;
pub mod sensor;
pub mod state_class;
pub mod switch;
pub mod unit;
