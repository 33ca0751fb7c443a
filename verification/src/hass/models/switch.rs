//! A switch entity: a commanded and reported on/off state.
use vstd::prelude::*;

verus! {

use crate::hass::discovery::Discovery;
use crate::hass::state::State;
use std::sync::Arc;
use super::availability::{Availability, AvailabilityMode};
use super::device::Device;
use super::device_class::DeviceClass;
use super::entity_category::EntityCategory;
use super::qos::Qos;

/// https://www.home-assistant.io/integrations/switch.mqtt/
#[derive(Clone, Debug)]
pub struct Switch {
    pub availabilty: Option<Vec<Availability>>,
    pub availability_topic: Option<String>,
    pub availability_mode: Option<AvailabilityMode>,
    pub availability_template: Option<String>,
    pub command_topic: String,
    pub device: Option<Arc<Device>>,
    pub device_class: Option<DeviceClass>,
    pub enabled_by_default: Option<bool>,
    pub encoding: Option<String>,
    pub entity_category: Option<EntityCategory>,
    pub icon: Option<String>,
    pub json_attributes_template: Option<String>,
    pub json_attributes_topic: Option<String>,
    pub name: Option<String>,
    pub object_id: String,
    pub payload_available: Option<String>,
    pub payload_not_available: Option<String>,
    pub payload_off: Option<String>,
    pub payload_on: Option<String>,
    pub qos: Option<Qos>,
    pub retain: Option<bool>,
    pub state_off: Option<String>,
    pub state_on: Option<String>,
    pub state_topic: Option<String>,
    pub unique_id: Option<String>,
    pub value_template: Option<String>,
}

impl Switch {
    /// A switch with the required fields set and every optional
    /// field absent.
    pub fn new(command_topic: String, object_id: String) -> (r: Switch)
        ensures
            r.command_topic == command_topic,
            r.object_id == object_id,
            r.availabilty is None,
            r.availability_topic is None,
            r.availability_mode is None,
            r.availability_template is None,
            r.device is None,
            r.device_class is None,
            r.enabled_by_default is None,
            r.encoding is None,
            r.entity_category is None,
            r.icon is None,
            r.json_attributes_template is None,
            r.json_attributes_topic is None,
            r.name is None,
            r.payload_available is None,
            r.payload_not_available is None,
            r.payload_off is None,
            r.payload_on is None,
            r.qos is None,
            r.retain is None,
            r.state_off is None,
            r.state_on is None,
            r.state_topic is None,
            r.unique_id is None,
            r.value_template is None,
    {
        Switch {
            command_topic,
            object_id,
            availabilty: None,
            availability_topic: None,
            availability_mode: None,
            availability_template: None,
            device: None,
            device_class: None,
            enabled_by_default: None,
            encoding: None,
            entity_category: None,
            icon: None,
            json_attributes_template: None,
            json_attributes_topic: None,
            name: None,
            payload_available: None,
            payload_not_available: None,
            payload_off: None,
            payload_on: None,
            qos: None,
            retain: None,
            state_off: None,
            state_on: None,
            state_topic: None,
            unique_id: None,
            value_template: None,
        }
    }
}

impl Discovery for Switch {
    open spec fn spec_component() -> Seq<char> {
        "switch"@
    }

    open spec fn spec_object_id(&self) -> Seq<char> {
        self.object_id@
    }

    fn component() -> (r: &'static str)
        ensures
            r@ == Self::spec_component(),
    {
        "switch"
    }

    fn object_id(&self) -> (r: &str)
        ensures
            r@ == self.spec_object_id(),
    {
        self.object_id.as_str()
    }
}

impl State for Switch {
    open spec fn spec_has_topic(&self) -> bool {
        self.state_topic is Some
    }

    open spec fn spec_topic(&self) -> Seq<char> {
        self.state_topic.unwrap()@
    }

    fn state_topic(&self) -> (r: &str)
        ensures
            r@ == self.spec_topic(),
    {
        self.state_topic.as_ref().unwrap().as_str()
    }
}

} // verus!
