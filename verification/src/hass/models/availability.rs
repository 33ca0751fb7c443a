//! Where an entity reports whether it is reachable.
use vstd::prelude::*;

verus! {

/// https://www.home-assistant.io/integrations/sensor.mqtt/#availability
#[derive(Clone, Debug)]
pub struct Availability {
    pub payload_available: Option<String>,
    pub payload_not_available: Option<String>,
    pub topic: String,
    pub value_template: Option<String>,
}

impl Availability {
    /// A availability with the required fields set and every optional
    /// field absent.
    pub fn new(topic: String) -> (r: Availability)
        ensures
            r.topic == topic,
            r.payload_available is None,
            r.payload_not_available is None,
            r.value_template is None,
    {
        Availability {
            topic,
            payload_available: None,
            payload_not_available: None,
            value_template: None,
        }
    }
}

/// https://www.home-assistant.io/integrations/sensor.mqtt/#availability_mode
#[derive(Clone, Copy, Debug, Eq, PartialEq, Structural)]
pub enum AvailabilityMode {
    All,
    Any,
    Latest,
}

impl AvailabilityMode {
    /// The name this mode is published under in a discovery payload.
    pub open spec fn spec_name(&self) -> Seq<char> {
        match self {
            AvailabilityMode::All => "all"@,
            AvailabilityMode::Any => "any"@,
            AvailabilityMode::Latest => "latest"@,
        }
    }

    /// The published name, in place of a serializer.
    pub fn as_str(&self) -> (r: &'static str)
        ensures
            r@ == self.spec_name(),
    {
        match self {
            AvailabilityMode::All => "all",
            AvailabilityMode::Any => "any",
            AvailabilityMode::Latest => "latest",
        }
    }
}

} // verus!
