//! Settings for announcing entities to Home Assistant.
use vstd::prelude::*;

verus! {

/// Where and as what a device announces itself: the discovery prefix
/// the installation listens on, the device's object id, and its
/// display name.
#[derive(Clone, Debug)]
pub struct HomeAssistantConfig {
    pub discovery_prefix: String,
    pub object_id: String,
    pub name: String,
}

} // verus!
