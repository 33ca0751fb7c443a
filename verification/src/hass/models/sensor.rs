//! A sensor entity: a published, read-only state.
use vstd::prelude::*;

verus! {

use crate::hass::discovery::Discovery;
use crate::hass::state::State;
use std::sync::Arc;
use super::availability::{Availability, AvailabilityMode};
use super::device::Device;
use super::device_class::DeviceClass;
use super::entity_category::EntityCategory;
use super::qos::Qos;
use super::state_class::StateClass;
use super::unit::UnitOfMeasurement;

/// https://www.home-assistant.io/integrations/sensor.mqtt/
#[derive(Clone, Debug)]
pub struct Sensor {
    pub availabilty: Option<Vec<Availability>>,
    pub availability_mode: Option<AvailabilityMode>,
    pub availability_template: Option<String>,
    pub availability_topic: Option<String>,
    pub device: Option<Arc<Device>>,
    pub device_class: Option<DeviceClass>,
    pub enabled_by_default: Option<bool>,
    pub encoding: Option<String>,
    pub entity_category: Option<EntityCategory>,
    pub expire_after: Option<u32>,
    pub force_update: Option<bool>,
    pub icon: Option<String>,
    pub json_attributes_template: Option<String>,
    pub json_attributes_topic: Option<String>,
    pub last_reset_value_template: Option<String>,
    pub name: String,
    pub object_id: String,
    pub payload_available: Option<String>,
    pub payload_not_available: Option<String>,
    pub suggested_display_precision: Option<u32>,
    pub qos: Option<Qos>,
    pub state_class: Option<StateClass>,
    pub state_topic: String,
    pub unique_id: Option<String>,
    pub unit_of_measurement: Option<UnitOfMeasurement>,
    pub value_template: Option<String>,
}

impl Sensor {
    /// A sensor with the required fields set and every optional
    /// field absent.
    pub fn new(name: String, object_id: String, state_topic: String) -> (r: Sensor)
        ensures
            r.name == name,
            r.object_id == object_id,
            r.state_topic == state_topic,
            r.availabilty is None,
            r.availability_mode is None,
            r.availability_template is None,
            r.availability_topic is None,
            r.device is None,
            r.device_class is None,
            r.enabled_by_default is None,
            r.encoding is None,
            r.entity_category is None,
            r.expire_after is None,
            r.force_update is None,
            r.icon is None,
            r.json_attributes_template is None,
            r.json_attributes_topic is None,
            r.last_reset_value_template is None,
            r.payload_available is None,
            r.payload_not_available is None,
            r.suggested_display_precision is None,
            r.qos is None,
            r.state_class is None,
            r.unique_id is None,
            r.unit_of_measurement is None,
            r.value_template is None,
    {
        Sensor {
            name,
            object_id,
            state_topic,
            availabilty: None,
            availability_mode: None,
            availability_template: None,
            availability_topic: None,
            device: None,
            device_class: None,
            enabled_by_default: None,
            encoding: None,
            entity_category: None,
            expire_after: None,
            force_update: None,
            icon: None,
            json_attributes_template: None,
            json_attributes_topic: None,
            last_reset_value_template: None,
            payload_available: None,
            payload_not_available: None,
            suggested_display_precision: None,
            qos: None,
            state_class: None,
            unique_id: None,
            unit_of_measurement: None,
            value_template: None,
        }
    }
}

impl Discovery for Sensor {
    open spec fn spec_component() -> Seq<char> {
        "sensor"@
    }

    open spec fn spec_object_id(&self) -> Seq<char> {
        self.object_id@
    }

    fn component() -> (r: &'static str)
        ensures
            r@ == Self::spec_component(),
    {
        "sensor"
    }

    fn object_id(&self) -> (r: &str)
        ensures
            r@ == self.spec_object_id(),
    {
        self.object_id.as_str()
    }
}

impl State for Sensor {
    open spec fn spec_has_topic(&self) -> bool {
        true
    }

    open spec fn spec_topic(&self) -> Seq<char> {
        self.state_topic@
    }

    fn state_topic(&self) -> (r: &str)
        ensures
            r@ == self.spec_topic(),
    {
        self.state_topic.as_str()
    }
}

} // verus!
