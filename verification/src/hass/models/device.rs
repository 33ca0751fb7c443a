//! The device an announced entity belongs to.
use vstd::prelude::*;

verus! {

/// The device a set of entities belongs to, as shown in the device registry.
#[derive(Clone, Debug)]
pub struct Device {
    pub configuration_url: Option<String>,
    pub connections: Option<Vec<(String, String)>>,
    pub hw_version: Option<String>,
    pub identifiers: Option<Vec<String>>,
    pub manufacturer: Option<String>,
    pub model: Option<String>,
    pub name: Option<String>,
    pub suggested_area: Option<String>,
    pub sw_version: Option<String>,
    pub via_device: Option<String>,
}

impl Device {
    /// A device with the required fields set and every optional
    /// field absent.
    pub fn new() -> (r: Device)
        ensures
            r.configuration_url is None,
            r.connections is None,
            r.hw_version is None,
            r.identifiers is None,
            r.manufacturer is None,
            r.model is None,
            r.name is None,
            r.suggested_area is None,
            r.sw_version is None,
            r.via_device is None,
    {
        Device {
            configuration_url: None,
            connections: None,
            hw_version: None,
            identifiers: None,
            manufacturer: None,
            model: None,
            name: None,
            suggested_area: None,
            sw_version: None,
            via_device: None,
        }
    }
}

} // verus!
