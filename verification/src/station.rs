//! The charging station's face towards Home Assistant, and the
//! decisions its control loops take.
//!
//! The poll pass reads the station's registers and publishes their
//! values; the command pass reacts to commands received over the
//! command channel. Both are long-running input/output loops in the
//! surrounding runtime; what they publish where, and what they write to
//! which register, is decided, and verified, here.
use vstd::prelude::*;

verus! {

use std::sync::Arc;
use vstd::string::StringExecFns;
use crate::hass::config::HomeAssistantConfig;
use crate::hass::models::device::Device;
use crate::hass::models::device_class::DeviceClass;
use crate::hass::models::number::{Number, NumberMode};
use crate::hass::models::sensor::Sensor;
use crate::hass::models::state_class::StateClass;
use crate::hass::models::switch::Switch;
use crate::hass::models::unit::UnitOfMeasurement;
use crate::registers::ChargingState;

/// Relies on std's Clone for alloc::sync::Arc: cloning returns a new
/// handle to the same value; vstd leaves it unspecified.
#[verifier::external_body]
fn arc_clone<T>(v: &Arc<T>) -> (r: Arc<T>)
    ensures
        r == *v,
{
    v.clone()
}

/// `<object_id>_<name>`: the id an entity is filed under.
pub open spec fn spec_entity_id(object_id: Seq<char>, name: Seq<char>) -> Seq<char> {
    object_id + "_"@ + name
}

/// `nrg/charging_station/<object_id>/<name>`: the topic an entity's
/// state or command travels on.
pub open spec fn spec_station_topic(object_id: Seq<char>, name: Seq<char>) -> Seq<char> {
    "nrg/charging_station/"@ + object_id + "/"@ + name
}

/// The one device record all of the station's entities share: its
/// identifier list holds exactly the configured object id, and its
/// name is the configured name.
pub open spec fn spec_station_device(
    d: Arc<Device>,
    object_id: Seq<char>,
    name: Seq<char>,
) -> bool {
    &&& d.configuration_url matches Some(u) && u@ == "http://192.168.178.40/"@
    &&& d.identifiers matches Some(ids) && ids@.len() == 1 && ids@[0]@ == object_id
    &&& d.manufacturer matches Some(m) && m@ == "KEBA"@
    &&& d.model matches Some(m) && m@ == "P30 X"@
    &&& d.name matches Some(n) && n@ == name
}

fn entity_id(object_id: &str, name: &str) -> (r: String)
    ensures
        r@ == spec_entity_id(object_id@, name@),
{
    let mut r = object_id.to_owned();
    r.append("_");
    r.append(name);
    proof {
        assert(r@ =~= spec_entity_id(object_id@, name@));
    }
    r
}

fn station_topic(object_id: &str, name: &str) -> (r: String)
    ensures
        r@ == spec_station_topic(object_id@, name@),
{
    let mut r = "nrg/charging_station/".to_owned();
    r.append(object_id);
    r.append("/");
    r.append(name);
    proof {
        assert(r@ =~= spec_station_topic(object_id@, name@));
    }
    r
}

fn suffixed(base: &str, suffix: &str) -> (r: String)
    ensures
        r@ == base@ + suffix@,
{
    let mut r = base.to_owned();
    r.append(suffix);
    r
}

/// The entities one charging station announces.
pub struct Hass {
    pub charging_state: Sensor,
    pub active_power: Sensor,
    pub total_energy: Sensor,
    pub enabled: Switch,
    pub charging_current: Number,
}

impl Hass {
    /// Build the station's entities from its announcement settings:
    /// sensors for the charging state, the momentary power and the
    /// total energy, a switch enabling charging, and the charging
    /// current setting, each with its ids and topics derived from the
    /// configured object id.
    pub fn new(cfg: &HomeAssistantConfig) -> (h: Hass)
        ensures
            h.charging_state.name@ == cfg.name@ + " Ladezustand"@,
            h.charging_state.object_id@ == spec_entity_id(cfg.object_id@, "charging_state"@),
            h.charging_state.state_topic@ == spec_station_topic(cfg.object_id@, "charging_state"@),
            h.charging_state.unique_id matches Some(u) && u@ == spec_entity_id(
                cfg.object_id@,
                "charging_state"@,
            ),
            h.charging_state.device matches Some(d) && spec_station_device(
                d,
                cfg.object_id@,
                cfg.name@,
            ),
            h.active_power.name@ == cfg.name@ + " Leistung"@,
            h.active_power.object_id@ == spec_entity_id(cfg.object_id@, "active_power"@),
            h.active_power.state_topic@ == spec_station_topic(cfg.object_id@, "active_power"@),
            h.active_power.unique_id matches Some(u) && u@ == spec_entity_id(
                cfg.object_id@,
                "active_power"@,
            ),
            h.active_power.device_class == Some(DeviceClass::Energy),
            h.active_power.unit_of_measurement == Some(UnitOfMeasurement::Watt),
            h.active_power.icon matches Some(i) && i@ == "mdi:ev-plug-type2"@,
            h.active_power.device == h.charging_state.device,
            h.total_energy.name@ == cfg.name@ + " Gesamtenergie"@,
            h.total_energy.object_id@ == spec_entity_id(cfg.object_id@, "total_energy"@),
            h.total_energy.state_topic@ == spec_station_topic(cfg.object_id@, "total_energy"@),
            h.total_energy.unique_id matches Some(u) && u@ == spec_entity_id(
                cfg.object_id@,
                "total_energy"@,
            ),
            h.total_energy.device_class == Some(DeviceClass::Energy),
            h.total_energy.state_class == Some(StateClass::TotalIncreasing),
            h.total_energy.unit_of_measurement == Some(UnitOfMeasurement::WattHours),
            h.total_energy.icon matches Some(i) && i@ == "mdi:ev-plug-type2"@,
            h.total_energy.device == h.charging_state.device,
            h.enabled.name matches Some(n) && n@ == cfg.name@ + " Aktiv"@,
            h.enabled.object_id@ == spec_entity_id(cfg.object_id@, "enabled"@),
            h.enabled.state_topic matches Some(t) && t@ == spec_station_topic(
                cfg.object_id@,
                "enabled"@,
            ),
            h.enabled.command_topic@ == spec_station_topic(cfg.object_id@, "set_enabled"@),
            h.enabled.state_on matches Some(s) && s@ == "true"@,
            h.enabled.state_off matches Some(s) && s@ == "false"@,
            h.enabled.payload_on matches Some(s) && s@ == "true"@,
            h.enabled.payload_off matches Some(s) && s@ == "false"@,
            h.enabled.unique_id matches Some(u) && u@ == spec_entity_id(
                cfg.object_id@,
                "enabled"@,
            ),
            h.enabled.device == h.charging_state.device,
            h.charging_current.name matches Some(n) && n@ == "Charging Current"@,
            h.charging_current.object_id@ == spec_entity_id(cfg.object_id@, "charging_current"@),
            h.charging_current.state_topic matches Some(t) && t@ == spec_station_topic(
                cfg.object_id@,
                "charging_current"@,
            ),
            h.charging_current.command_topic matches Some(t) && t@ == spec_station_topic(
                cfg.object_id@,
                "set_charging_current"@,
            ),
            h.charging_current.min == Some(6000i64),
            h.charging_current.max == Some(16000i64),
            h.charging_current.step == Some(100i64),
            h.charging_current.mode == Some(NumberMode::Slider),
            h.charging_current.device_class == Some(DeviceClass::Power),
            h.charging_current.unit_of_measurement == Some(UnitOfMeasurement::MilliAmpere),
            h.charging_current.device == h.charging_state.device,
    {
        let mut device = Device::new();
        device.configuration_url = Some("http://192.168.178.40/".to_owned());
        device.identifiers = Some(vec![cfg.object_id.clone()]);
        device.manufacturer = Some("KEBA".to_owned());
        device.model = Some("P30 X".to_owned());
        device.name = Some(cfg.name.clone());
        let device = Arc::new(device);

        let mut charging_state = Sensor::new(
            suffixed(cfg.name.as_str(), " Ladezustand"),
            entity_id(cfg.object_id.as_str(), "charging_state"),
            station_topic(cfg.object_id.as_str(), "charging_state"),
        );
        charging_state.device = Some(arc_clone(&device));
        charging_state.unique_id = Some(entity_id(cfg.object_id.as_str(), "charging_state"));

        let mut active_power = Sensor::new(
            suffixed(cfg.name.as_str(), " Leistung"),
            entity_id(cfg.object_id.as_str(), "active_power"),
            station_topic(cfg.object_id.as_str(), "active_power"),
        );
        active_power.device = Some(arc_clone(&device));
        active_power.device_class = Some(DeviceClass::Energy);
        active_power.unique_id = Some(entity_id(cfg.object_id.as_str(), "active_power"));
        active_power.unit_of_measurement = Some(UnitOfMeasurement::Watt);
        active_power.icon = Some("mdi:ev-plug-type2".to_owned());

        let mut total_energy = Sensor::new(
            suffixed(cfg.name.as_str(), " Gesamtenergie"),
            entity_id(cfg.object_id.as_str(), "total_energy"),
            station_topic(cfg.object_id.as_str(), "total_energy"),
        );
        total_energy.device = Some(arc_clone(&device));
        total_energy.device_class = Some(DeviceClass::Energy);
        total_energy.state_class = Some(StateClass::TotalIncreasing);
        total_energy.unique_id = Some(entity_id(cfg.object_id.as_str(), "total_energy"));
        total_energy.unit_of_measurement = Some(UnitOfMeasurement::WattHours);
        total_energy.icon = Some("mdi:ev-plug-type2".to_owned());

        let mut enabled = Switch::new(
            station_topic(cfg.object_id.as_str(), "set_enabled"),
            entity_id(cfg.object_id.as_str(), "enabled"),
        );
        enabled.device = Some(arc_clone(&device));
        enabled.name = Some(suffixed(cfg.name.as_str(), " Aktiv"));
        enabled.state_off = Some("false".to_owned());
        enabled.state_on = Some("true".to_owned());
        enabled.state_topic = Some(station_topic(cfg.object_id.as_str(), "enabled"));
        enabled.payload_off = Some("false".to_owned());
        enabled.payload_on = Some("true".to_owned());
        enabled.unique_id = Some(entity_id(cfg.object_id.as_str(), "enabled"));

        let mut charging_current = Number::new(
            entity_id(cfg.object_id.as_str(), "charging_current"),
        );
        charging_current.command_topic = Some(
            station_topic(cfg.object_id.as_str(), "set_charging_current"),
        );
        charging_current.device = Some(arc_clone(&device));
        charging_current.name = Some("Charging Current".to_owned());
        charging_current.min = Some(6000);
        charging_current.max = Some(16000);
        charging_current.mode = Some(NumberMode::Slider);
        charging_current.device_class = Some(DeviceClass::Power);
        charging_current.state_topic = Some(
            station_topic(cfg.object_id.as_str(), "charging_current"),
        );
        charging_current.step = Some(100);
        charging_current.unit_of_measurement = Some(UnitOfMeasurement::MilliAmpere);

        Hass { charging_state, active_power, total_energy, enabled, charging_current }
    }
}

/// What the poll pass writes to the enable-charging register after
/// reading the charging state, given the state of the previous pass and
/// the enabled flag: pause an active charge while disabled, resume a
/// suspended charge once enabled again, and re-enable the station when
/// the vehicle has just disconnected.
pub open spec fn spec_charging_control(
    charging_state: ChargingState,
    previous_charging_state: Option<ChargingState>,
    enabled: bool,
) -> Option<bool> {
    if charging_state == ChargingState::Active && !enabled {
        Some(false)
    } else if charging_state == ChargingState::Suspended && enabled {
        Some(true)
    } else if charging_state == ChargingState::NotReady && previous_charging_state != Some(
        ChargingState::NotReady,
    ) {
        Some(true)
    } else {
        None
    }
}

/// The enable-register write one poll pass issues, if any.
pub fn charging_control(
    charging_state: ChargingState,
    previous_charging_state: Option<ChargingState>,
    enabled: bool,
) -> (r: Option<bool>)
    ensures
        r == spec_charging_control(charging_state, previous_charging_state, enabled),
{
    if charging_state == ChargingState::Active && !enabled {
        Some(false)
    } else if charging_state == ChargingState::Suspended && enabled {
        Some(true)
    } else if charging_state == ChargingState::NotReady && previous_charging_state != Some(
        ChargingState::NotReady,
    ) {
        Some(true)
    } else {
        None
    }
}

/// A command received over the station's command channel.
#[derive(Debug, Clone, Copy, PartialEq, Eq, Structural)]
pub enum StationCommand {
    SetEnabled(bool),
    SetChargingCurrent(u16),
}

/// What handling one received command amounts to: the flag to store,
/// the states to publish, and the register write to issue.
#[derive(Debug, PartialEq, Eq, Structural)]
pub struct CommandEffect {
    /// Store this as the new enabled flag.
    pub set_enabled: Option<bool>,
    /// Publish this value on the enabled switch's state topic.
    pub publish_enabled: Option<bool>,
    /// Publish this value on the charging-current state topic.
    pub publish_charging_current: Option<u16>,
    /// Write this value to the charging-current register.
    pub write_charging_current: Option<u16>,
}

/// The effect of one received command: an enable command stores and
/// publishes the flag; a charging-current command publishes the value
/// and writes it to the register. Nothing else is touched.
pub fn command_effect(cmd: &StationCommand) -> (e: CommandEffect)
    ensures
        match cmd {
            StationCommand::SetEnabled(b) => e == (CommandEffect {
                set_enabled: Some(*b),
                publish_enabled: Some(*b),
                publish_charging_current: None,
                write_charging_current: None,
            }),
            StationCommand::SetChargingCurrent(c) => e == (CommandEffect {
                set_enabled: None,
                publish_enabled: None,
                publish_charging_current: Some(*c),
                write_charging_current: Some(*c),
            }),
        },
{
    match cmd {
        StationCommand::SetEnabled(b) => CommandEffect {
            set_enabled: Some(*b),
            publish_enabled: Some(*b),
            publish_charging_current: None,
            write_charging_current: None,
        },
        StationCommand::SetChargingCurrent(c) => CommandEffect {
            set_enabled: None,
            publish_enabled: None,
            publish_charging_current: Some(*c),
            write_charging_current: Some(*c),
        },
    }
}

/// The retained enabled-state message the station receives back from
/// the broker at startup: any payload but `false` re-enables charging.
pub fn enabled_from_retained_payload(payload: &[u8], retain: bool) -> (r: Option<bool>)
    ensures
        !retain ==> r is None,
        retain ==> r == Some(payload@ != "false"@.map_values(|c: char| c as u8)),
{
    if !retain {
        return None;
    }
    let f: &[u8] = "false".as_bytes();
    proof {
        reveal_strlit("false");
        assert(vstd::utf8::is_ascii_chars("false"@));
        vstd::utf8::is_ascii_chars_encode_utf8("false"@);
        assert(f@ =~= "false"@.map_values(|c: char| c as u8));
    }
    Some(!slice_u8_eq(payload, f))
}

/// Compare two byte slices element by element.
fn slice_u8_eq(a: &[u8], b: &[u8]) -> (r: bool)
    ensures
        r == (a@ == b@),
{
    if a.len() != b.len() {
        return false;
    }
    let n = a.len();
    for i in 0..n
        invariant
            n == a@.len(),
            n == b@.len(),
            forall|j: int| 0 <= j < i ==> a@[j] == b@[j],
    {
        if a[i] != b[i] {
            return false;
        }
    }
    proof {
        assert(a@ =~= b@);
    }
    true
}

} // verus!
