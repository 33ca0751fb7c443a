use std::sync::Arc;

use nrg::hass::config::HomeAssistantConfig;
use nrg::registers::ChargingState;
use nrg::station::{
    charging_control, command_effect, enabled_from_retained_payload, CommandEffect, Hass,
    StationCommand,
};

fn cfg() -> HomeAssistantConfig {
    HomeAssistantConfig {
        discovery_prefix: String::from("homeassistant"),
        object_id: String::from("keba"),
        name: String::from("Wallbox"),
    }
}

#[test]
fn station_entities_have_derived_ids_and_topics() {
    let h = Hass::new(&cfg());

    assert_eq!(h.charging_state.name, "Wallbox Ladezustand");
    assert_eq!(h.charging_state.object_id, "keba_charging_state");
    assert_eq!(
        h.charging_state.state_topic,
        "nrg/charging_station/keba/charging_state"
    );
    assert_eq!(
        h.charging_state.unique_id.as_deref(),
        Some("keba_charging_state")
    );

    assert_eq!(h.active_power.name, "Wallbox Leistung");
    assert_eq!(
        h.active_power.state_topic,
        "nrg/charging_station/keba/active_power"
    );

    assert_eq!(h.total_energy.name, "Wallbox Gesamtenergie");
    assert_eq!(
        h.total_energy.state_topic,
        "nrg/charging_station/keba/total_energy"
    );

    assert_eq!(h.enabled.name.as_deref(), Some("Wallbox Aktiv"));
    assert_eq!(
        h.enabled.command_topic,
        "nrg/charging_station/keba/set_enabled"
    );
    assert_eq!(
        h.enabled.state_topic.as_deref(),
        Some("nrg/charging_station/keba/enabled")
    );
    assert_eq!(h.enabled.payload_on.as_deref(), Some("true"));
    assert_eq!(h.enabled.payload_off.as_deref(), Some("false"));

    assert_eq!(
        h.charging_current.command_topic.as_deref(),
        Some("nrg/charging_station/keba/set_charging_current")
    );
    assert_eq!(
        h.charging_current.state_topic.as_deref(),
        Some("nrg/charging_station/keba/charging_current")
    );
    assert_eq!(h.charging_current.min, Some(6000));
    assert_eq!(h.charging_current.max, Some(16000));
    assert_eq!(h.charging_current.step, Some(100));
    assert!(h.charging_current.device.is_some());
}

#[test]
fn station_device_identity() {
    let h = Hass::new(&cfg());
    let device = h.charging_state.device.as_ref().unwrap();
    assert_eq!(device.manufacturer.as_deref(), Some("KEBA"));
    assert_eq!(device.model.as_deref(), Some("P30 X"));
    assert_eq!(device.name.as_deref(), Some("Wallbox"));
    assert_eq!(device.identifiers.as_deref(), Some(&["keba".to_string()][..]));
    assert_eq!(
        device.configuration_url.as_deref(),
        Some("http://192.168.178.40/")
    );
}

#[test]
fn station_entities_share_one_device() {
    let h = Hass::new(&cfg());
    let device = h.charging_state.device.as_ref().unwrap();
    assert!(Arc::ptr_eq(device, h.active_power.device.as_ref().unwrap()));
    assert!(Arc::ptr_eq(device, h.total_energy.device.as_ref().unwrap()));
    assert!(Arc::ptr_eq(device, h.enabled.device.as_ref().unwrap()));
    assert!(Arc::ptr_eq(device, h.charging_current.device.as_ref().unwrap()));
}

#[test]
fn charging_control_pauses_and_resumes() {
    assert_eq!(charging_control(ChargingState::Active, Some(ChargingState::Active), false), Some(false));
    assert_eq!(charging_control(ChargingState::Active, Some(ChargingState::Active), true), None);
    assert_eq!(charging_control(ChargingState::Suspended, Some(ChargingState::Active), true), Some(true));
    assert_eq!(charging_control(ChargingState::Suspended, Some(ChargingState::Active), false), None);
    assert_eq!(charging_control(ChargingState::NotReady, Some(ChargingState::Active), true), Some(true));
    assert_eq!(charging_control(ChargingState::NotReady, Some(ChargingState::NotReady), true), None);
    assert_eq!(charging_control(ChargingState::NotReady, None, false), Some(true));
    assert_eq!(charging_control(ChargingState::Ready, Some(ChargingState::Ready), true), None);
    assert_eq!(charging_control(ChargingState::StartUp, None, true), None);
}

#[test]
fn command_effects() {
    assert_eq!(
        command_effect(&StationCommand::SetEnabled(false)),
        CommandEffect {
            set_enabled: Some(false),
            publish_enabled: Some(false),
            publish_charging_current: None,
            write_charging_current: None,
        }
    );
    assert_eq!(
        command_effect(&StationCommand::SetChargingCurrent(7000)),
        CommandEffect {
            set_enabled: None,
            publish_enabled: None,
            publish_charging_current: Some(7000),
            write_charging_current: Some(7000),
        }
    );
}

#[test]
fn retained_enabled_payload() {
    assert_eq!(enabled_from_retained_payload(b"false", true), Some(false));
    assert_eq!(enabled_from_retained_payload(b"true", true), Some(true));
    assert_eq!(enabled_from_retained_payload(b"anything", true), Some(true));
    assert_eq!(enabled_from_retained_payload(b"false", false), None);
    assert_eq!(enabled_from_retained_payload(b"true", false), None);
}
