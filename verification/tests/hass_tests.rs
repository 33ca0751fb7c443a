use nrg::hass::discovery::Discovery;
use nrg::hass::models::availability::{Availability, AvailabilityMode};
use nrg::hass::models::device::Device;
use nrg::hass::models::device_class::DeviceClass;
use nrg::hass::models::entity_category::EntityCategory;
use nrg::hass::models::number::{Number, NumberMode};
use nrg::hass::models::qos::Qos;
use nrg::hass::models::select::Select;
use nrg::hass::models::sensor::Sensor;
use nrg::hass::models::state_class::StateClass;
use nrg::hass::models::switch::Switch;
use nrg::hass::models::unit::UnitOfMeasurement;
use nrg::hass::state::State;

#[test]
fn discovery_topics_follow_the_convention() {
    let s = Sensor::new(
        String::from("Energy"),
        String::from("meter_wh"),
        String::from("nrg/energy-meter/meter/wh"),
    );
    assert_eq!(
        s.topic("homeassistant", "meter"),
        "homeassistant/sensor/meter/meter_wh/config"
    );

    let sw = Switch::new(String::from("cmd"), String::from("plug"));
    assert_eq!(sw.topic("ha", "node"), "ha/switch/node/plug/config");

    let sel = Select::new(String::from("cmd"), String::from("mode"), Vec::new());
    assert_eq!(sel.topic("ha", "node"), "ha/select/node/mode/config");

    let n = Number::new(String::from("current"));
    assert_eq!(n.topic("ha", "node"), "ha/number/node/current/config");
}

#[test]
fn state_topics() {
    let s = Sensor::new(
        String::from("Energy"),
        String::from("meter_wh"),
        String::from("nrg/energy-meter/meter/wh"),
    );
    assert_eq!(s.state_topic(), "nrg/energy-meter/meter/wh");

    let mut sw = Switch::new(String::from("cmd"), String::from("plug"));
    sw.state_topic = Some(String::from("nrg/plug/state"));
    assert_eq!(State::state_topic(&sw), "nrg/plug/state");
}

#[test]
fn new_leaves_optional_fields_absent() {
    let s = Sensor::new(String::from("n"), String::from("o"), String::from("t"));
    assert!(s.device.is_none());
    assert!(s.device_class.is_none());
    assert!(s.unique_id.is_none());
    assert!(s.unit_of_measurement.is_none());
    assert!(s.state_class.is_none());

    let d = Device::new();
    assert!(d.manufacturer.is_none());
    assert!(d.identifiers.is_none());

    let a = Availability::new(String::from("t"));
    assert_eq!(a.topic, "t");
    assert!(a.payload_available.is_none());
}

#[test]
fn enum_wire_names() {
    assert_eq!(DeviceClass::ApparentPower.as_str(), "apparent_power");
    assert_eq!(DeviceClass::Energy.as_str(), "energy");
    assert_eq!(DeviceClass::Pm25.as_str(), "pm25");
    assert_eq!(
        DeviceClass::VolatileOrganicCompoundsParts.as_str(),
        "volatile_organic_compounds_parts"
    );
    assert_eq!(StateClass::Measurement.as_str(), "measurement");
    assert_eq!(StateClass::TotalIncreasing.as_str(), "total_increasing");
    assert_eq!(EntityCategory::Config.as_str(), "config");
    assert_eq!(EntityCategory::Diagnostic.as_str(), "diagnostic");
    assert_eq!(AvailabilityMode::All.as_str(), "all");
    assert_eq!(AvailabilityMode::Latest.as_str(), "latest");
    assert_eq!(NumberMode::Auto.as_str(), "auto");
    assert_eq!(NumberMode::Slider.as_str(), "slider");
    assert_eq!(UnitOfMeasurement::Watt.as_str(), "W");
    assert_eq!(UnitOfMeasurement::WattHours.as_str(), "Wh");
    assert_eq!(UnitOfMeasurement::MilliAmpere.as_str(), "mA");
    assert_eq!(UnitOfMeasurement::TempCelsius.as_str(), "°C");
    assert_eq!(UnitOfMeasurement::MicrogramsPreCubicMeter.as_str(), "µg/m³");
}

#[test]
fn qos_levels() {
    assert_eq!(Qos::AtMostOnce.level(), 0);
    assert_eq!(Qos::AtLeastOnce.level(), 1);
    assert_eq!(Qos::ExactlyOnce.level(), 2);
}
