use nrg::modbus::{Register, Type};
use nrg::registers::{
    active_power_register, charging_state_register, enable_charging_station_register,
    max_supported_current_register, set_charging_current_register, total_energy_register,
    ChargingState,
};

#[test]
fn u16_codec() {
    assert_eq!(u16::word_len(), 1);
    assert_eq!(u16::decode(&[7]), Some(7));
    assert_eq!(u16::decode(&[]), None);
    assert_eq!(u16::decode(&[1, 2]), None);
    assert_eq!(5u16.encode(), vec![5]);
}

#[test]
fn u32_codec() {
    assert_eq!(u32::word_len(), 2);
    assert_eq!(u32::decode(&[0x0001, 0x0002]), Some(0x0001_0002));
    assert_eq!(u32::decode(&[0xFFFF, 0xFFFF]), Some(0xFFFF_FFFF));
    assert_eq!(u32::decode(&[0, 0]), Some(0));
    assert_eq!(u32::decode(&[1]), None);
    assert_eq!(u32::decode(&[1, 2, 3]), None);
    assert_eq!(0x1234_5678u32.encode(), vec![0x1234, 0x5678]);
    assert_eq!(u32::decode(&0xDEAD_BEEFu32.encode()), Some(0xDEAD_BEEF));
}

#[test]
fn charging_state_codec() {
    assert_eq!(ChargingState::word_len(), 2);
    assert_eq!(
        ChargingState::decode(&[0, 3]),
        Some(ChargingState::Active)
    );
    assert_eq!(
        ChargingState::decode(&[0, 0]),
        Some(ChargingState::StartUp)
    );
    assert_eq!(
        ChargingState::decode(&[0, 5]),
        Some(ChargingState::Suspended)
    );
    assert_eq!(ChargingState::decode(&[0, 6]), None);
    assert_eq!(ChargingState::decode(&[1, 0]), None);
    assert_eq!(ChargingState::decode(&[3]), None);
    assert_eq!(ChargingState::Ready.encode(), vec![0, 2]);
}

#[test]
fn charging_state_numbers_and_names() {
    let all = [
        (ChargingState::StartUp, 0, "StartUp"),
        (ChargingState::NotReady, 1, "NotReady"),
        (ChargingState::Ready, 2, "Ready"),
        (ChargingState::Active, 3, "Active"),
        (ChargingState::Error, 4, "Error"),
        (ChargingState::Suspended, 5, "Suspended"),
    ];
    for (state, code, name) in all {
        assert_eq!(state.to_u32(), code);
        assert_eq!(ChargingState::from_u32(code), Some(state));
        assert_eq!(state.as_str(), name);
    }
    assert_eq!(ChargingState::from_u32(6), None);
    assert_eq!(ChargingState::from_u32(u32::MAX), None);
}

#[test]
fn register_descriptor() {
    let r: Register<ChargingState> = Register::new("charging_state", 1000);
    assert_eq!(r.name, "charging_state");
    assert_eq!(r.addr, 1000);
    let w: Register<u16> = Register::new("enable_charging_station", 5014);
    assert_eq!(w.addr, 5014);
}

#[test]
fn register_table() {
    assert_eq!(charging_state_register().name, "charging_state");
    assert_eq!(charging_state_register().addr, 1000);
    assert_eq!(active_power_register().name, "active_power");
    assert_eq!(active_power_register().addr, 1020);
    assert_eq!(total_energy_register().name, "total_energy");
    assert_eq!(total_energy_register().addr, 1036);
    assert_eq!(max_supported_current_register().name, "max_supported_current");
    assert_eq!(max_supported_current_register().addr, 1110);
    assert_eq!(set_charging_current_register().name, "set_charging_current");
    assert_eq!(set_charging_current_register().addr, 5004);
    assert_eq!(enable_charging_station_register().name, "enable_charging_station");
    assert_eq!(enable_charging_station_register().addr, 5014);
}
