use std::time::Duration;

use nrg::actuators::coil_frame;
use nrg::config::{default_capacity, default_keepalive, Credentials, MqttConfig};
use nrg::ds18b20::{default_w1_master, parse_millidegrees, probe_sensor, serial_hex, SensorConfig, W1Config};
use nrg::sml::{default_baud, obis_kind, ObisKind, SerialConfig};
use nrg::timescaledb::{Aggregate, PostgresqlConfig, Series};

#[test]
fn broker_setting_defaults() {
    assert_eq!(default_keepalive(), Duration::from_secs(30));
    assert_eq!(default_capacity(), 10);
    let cfg = MqttConfig {
        host: String::from("broker.local"),
        port: 1883,
        client_id: String::from("nrg"),
        credentials: Some(Credentials {
            username: String::from("user"),
            password: String::from("pw"),
        }),
        keepalive: default_keepalive(),
        capacity: default_capacity(),
        topic_prefix: String::from("nrg/"),
    };
    assert_eq!(cfg.port, 1883);
    assert_eq!(cfg.credentials.as_ref().unwrap().username, "user");
}

#[test]
fn sensor_bus_defaults() {
    assert_eq!(default_w1_master(), "w1_bus_master1");
    assert_eq!(default_baud(), 9600);
    let w1 = W1Config {
        interval: Duration::from_secs(10),
        master: default_w1_master(),
    };
    assert_eq!(w1.master, "w1_bus_master1");
    let serial = SerialConfig {
        device: String::from("/dev/ttyUSB0"),
        baud: default_baud(),
    };
    assert_eq!(serial.baud, 9600);
}

#[test]
fn serial_numbers_format_as_lower_hex() {
    let sensor = SensorConfig {
        name: String::from("Boiler"),
        serial: [0x28, 0x0f, 0xAB, 0x00, 0x9C, 0x5E],
    };
    assert_eq!(serial_hex(&sensor.serial), "280fab009c5e");
    assert_eq!(serial_hex(&[0, 0, 0, 0, 0, 0]), "000000000000");
    assert_eq!(serial_hex(&[0xFF; 6]), "ffffffffffff");
    assert_eq!(serial_hex(&[0x01, 0x23, 0x45, 0x67, 0x89, 0xEF]), "0123456789ef");
}

#[test]
fn database_settings_hold_plain_values() {
    let pg = PostgresqlConfig {
        url: None,
        host: Some(String::from("db.local")),
        port: Some(5432),
        user: Some(String::from("nrg")),
        password: None,
        dbname: Some(String::from("telemetry")),
    };
    assert_eq!(pg.port, Some(5432));
    let series = Series {
        topic: String::from("nrg/energy-meter/main/wh"),
        aggregate: Aggregate { day: true, hour: false },
    };
    assert!(series.aggregate.day);
    let defaulted = Aggregate::default();
    assert!(!defaulted.day && !defaulted.hour);
}

#[test]
fn relay_frame_swaps_the_byte_halves() {
    let mut flags = [false; 16];
    flags[0] = true;
    flags[15] = true;
    let frame = coil_frame(&flags);
    assert!(frame[7]);
    assert!(frame[8]);
    assert!(!frame[0]);
    assert!(!frame[15]);
    let identity = coil_frame(&coil_frame(&flags));
    assert_eq!(identity, flags);
}

#[test]
fn probe_readings_parse_as_millidegrees() {
    assert_eq!(parse_millidegrees("23456"), Some(23456));
    assert_eq!(parse_millidegrees("-5500"), Some(-5500));
    assert_eq!(parse_millidegrees("+125000"), Some(125000));
    assert_eq!(parse_millidegrees("0"), Some(0));
    assert_eq!(parse_millidegrees("2147483647"), Some(i32::MAX));
    assert_eq!(parse_millidegrees("-2147483648"), Some(i32::MIN));
    assert_eq!(parse_millidegrees("2147483648"), None);
    assert_eq!(parse_millidegrees("-2147483649"), None);
    assert_eq!(parse_millidegrees("99999999999999999999"), None);
    assert_eq!(parse_millidegrees(""), None);
    assert_eq!(parse_millidegrees("-"), None);
    assert_eq!(parse_millidegrees("+"), None);
    assert_eq!(parse_millidegrees("12a3"), None);
    assert_eq!(parse_millidegrees(" 12"), None);
    assert_eq!(parse_millidegrees("12\n"), None);
}

#[test]
fn probe_sensor_entity_is_derived_from_the_serial() {
    let probe = SensorConfig {
        name: String::from("Boiler"),
        serial: [0x28, 0x0f, 0xAB, 0x00, 0x9C, 0x5E],
    };
    let s = probe_sensor(&probe, "nrg/temp/");
    assert_eq!(s.name, "Boiler");
    assert_eq!(s.object_id, "nrg_ds18b20_280fab009c5e");
    assert_eq!(s.state_topic, "nrg/temp/280fab009c5e");
    assert_eq!(s.unique_id.as_deref(), Some("nrg_ds18b20_280fab009c5e"));
}

#[test]
fn telegram_object_names_classify() {
    assert_eq!(obis_kind(&[1, 0, 16, 7, 0, 255]), Some(ObisKind::ActivePower));
    assert_eq!(obis_kind(&[1, 0, 1, 8, 0, 255]), Some(ObisKind::EnergyImport));
    assert_eq!(obis_kind(&[1, 0, 2, 8, 0, 255]), Some(ObisKind::EnergyExport));
    assert_eq!(obis_kind(&[1, 0, 3, 8, 0, 255]), None);
    assert_eq!(obis_kind(&[1, 0, 16, 7]), None);
    assert_eq!(obis_kind(&[]), None);
}
