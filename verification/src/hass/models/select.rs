//! A select entity: one choice out of a fixed list.
use vstd::prelude::*;

verus! {

use crate::hass::discovery::Discovery;
use crate::hass::state::State;
use std::sync::Arc;
use super::availability::{Availability, AvailabilityMode};
use super::device::Device;
use super::qos::Qos;

/// https://www.home-assistant.io/integrations/select.mqtt/
#[derive(Clone, Debug)]
pub struct Select {
    pub availabilty: Option<Vec<Availability>>,
    pub availability_topic: Option<String>,
    pub availability_mode: Option<AvailabilityMode>,
    pub availability_template: Option<String>,
    pub command_template: Option<String>,
    pub command_topic: String,
    pub device: Option<Arc<Device>>,
    pub name: Option<String>,
    pub object_id: String,
    pub optimistic: Option<bool>,
    pub options: Vec<String>,
    pub qos: Option<Qos>,
    pub retain: Option<bool>,
    pub state_topic: Option<String>,
    pub unique_id: Option<String>,
    pub value_template: Option<String>,
}

impl Select {
    /// A select with the required fields set and every optional
    /// field absent.
    pub fn new(command_topic: String, object_id: String, options: Vec<String>) -> (r: Select)
        ensures
            r.command_topic == command_topic,
            r.object_id == object_id,
            r.options == options,
            r.availabilty is None,
            r.availability_topic is None,
            r.availability_mode is None,
            r.availability_template is None,
            r.command_template is None,
            r.device is None,
            r.name is None,
            r.optimistic is None,
            r.qos is None,
            r.retain is None,
            r.state_topic is None,
            r.unique_id is None,
            r.value_template is None,
    {
        Select {
            command_topic,
            object_id,
            options,
            availabilty: None,
            availability_topic: None,
            availability_mode: None,
            availability_template: None,
            command_template: None,
            device: None,
            name: None,
            optimistic: None,
            qos: None,
            retain: None,
            state_topic: None,
            unique_id: None,
            value_template: None,
        }
    }
}

impl Discovery for Select {
    open spec fn spec_component() -> Seq<char> {
        "select"@
    }

    open spec fn spec_object_id(&self) -> Seq<char> {
        self.object_id@
    }

    fn component() -> (r: &'static str)
        ensures
            r@ == Self::spec_component(),
    {
        "select"
    }

    fn object_id(&self) -> (r: &str)
        ensures
            r@ == self.spec_object_id(),
    {
        self.object_id.as_str()
    }
}

impl State for Select {
    open spec fn spec_has_topic(&self) -> bool {
        self.state_topic is Some
    }

    open spec fn spec_topic(&self) -> Seq<char> {
        self.state_topic.unwrap()@
    }

    fn state_topic(&self) -> (r: &str)
        ensures
            r@ == self.spec_topic(),
    {
        self.state_topic.as_ref().unwrap().as_str()
    }
}

/// One selectable option, where a richer description than the plain
/// option string is wanted.
#[derive(Clone, Debug)]
pub struct OptionsItem {
    pub name: String,
    pub id: String,
    pub value: String,
}

} // verus!
