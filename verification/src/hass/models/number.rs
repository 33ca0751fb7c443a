//! A number entity: a commanded value inside a range.
use vstd::prelude::*;

verus! {

use crate::hass::discovery::Discovery;
use crate::hass::state::State;
use std::sync::Arc;
use super::device::Device;
use super::device_class::DeviceClass;
use super::unit::UnitOfMeasurement;

/// How the number is presented for input.
#[derive(Clone, Copy, Debug, Eq, PartialEq, Structural)]
pub enum NumberMode {
    Auto,
    Box,
    Slider,
}

impl NumberMode {
    /// The name this mode is published under in a discovery payload.
    pub open spec fn spec_name(&self) -> Seq<char> {
        match self {
            NumberMode::Auto => "auto"@,
            NumberMode::Box => "box"@,
            NumberMode::Slider => "slider"@,
        }
    }

    /// The published name, in place of a serializer.
    pub fn as_str(&self) -> (r: &'static str)
        ensures
            r@ == self.spec_name(),
    {
        match self {
            NumberMode::Auto => "auto",
            NumberMode::Box => "box",
            NumberMode::Slider => "slider",
        }
    }
}

/// https://www.home-assistant.io/integrations/number.mqtt/
#[derive(Clone, Debug)]
pub struct Number {
    pub command_template: Option<String>,
    pub command_topic: Option<String>,
    pub device: Option<Arc<Device>>,
    pub device_class: Option<DeviceClass>,
    pub icon: Option<String>,
    pub min: Option<i64>,
    pub max: Option<i64>,
    pub mode: Option<NumberMode>,
    pub name: Option<String>,
    pub object_id: String,
    pub state_topic: Option<String>,
    pub step: Option<i64>,
    pub unit_of_measurement: Option<UnitOfMeasurement>,
    pub value_template: Option<String>,
}

impl Number {
    /// A number with the required fields set and every optional
    /// field absent.
    pub fn new(object_id: String) -> (r: Number)
        ensures
            r.object_id == object_id,
            r.command_template is None,
            r.command_topic is None,
            r.device is None,
            r.device_class is None,
            r.icon is None,
            r.min is None,
            r.max is None,
            r.mode is None,
            r.name is None,
            r.state_topic is None,
            r.step is None,
            r.unit_of_measurement is None,
            r.value_template is None,
    {
        Number {
            object_id,
            command_template: None,
            command_topic: None,
            device: None,
            device_class: None,
            icon: None,
            min: None,
            max: None,
            mode: None,
            name: None,
            state_topic: None,
            step: None,
            unit_of_measurement: None,
            value_template: None,
        }
    }
}

impl Discovery for Number {
    open spec fn spec_component() -> Seq<char> {
        "number"@
    }

    open spec fn spec_object_id(&self) -> Seq<char> {
        self.object_id@
    }

    fn component() -> (r: &'static str)
        ensures
            r@ == Self::spec_component(),
    {
        "number"
    }

    fn object_id(&self) -> (r: &str)
        ensures
            r@ == self.spec_object_id(),
    {
        self.object_id.as_str()
    }
}

impl State for Number {
    open spec fn spec_has_topic(&self) -> bool {
        self.state_topic is Some
    }

    open spec fn spec_topic(&self) -> Seq<char> {
        self.state_topic.unwrap()@
    }

    fn state_topic(&self) -> (r: &str)
        ensures
            r@ == self.spec_topic(),
    {
        self.state_topic.as_ref().unwrap().as_str()
    }
}

} // verus!
