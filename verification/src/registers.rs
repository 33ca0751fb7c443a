//! The charging station's register values, as defined in the
//! "P30 Charging Station Modbus TCP Programmers Guide V 1.04".
use vstd::prelude::*;

verus! {

use crate::modbus::{Register, Type};

/// The state of the charging station, as reported by its state
/// register.
#[derive(Debug, Copy, Clone, PartialEq, Eq, Structural)]
pub enum ChargingState {
    /// Start-up of the charging station.
    StartUp,
    /// The charging station is not ready for charging. The charging
    /// station is not connected to an electric vehicle, it is locked
    /// by the authorization function or another mechanism.
    NotReady,
    /// The charging station is ready for charging and waits for a
    /// reaction from the electric vehicle.
    Ready,
    /// A charging process is active.
    Active,
    /// An error has occurred.
    Error,
    /// The charging process is temporarily interrupted because the
    /// temperature is too high or the wallbox is in suspended mode.
    Suspended,
}

/// The state a register value stands for, if any: the states are
/// numbered 0 through 5 in the order they are declared.
pub open spec fn spec_state_from_u32(v: u32) -> Option<ChargingState> {
    if v == 0 {
        Some(ChargingState::StartUp)
    } else if v == 1 {
        Some(ChargingState::NotReady)
    } else if v == 2 {
        Some(ChargingState::Ready)
    } else if v == 3 {
        Some(ChargingState::Active)
    } else if v == 4 {
        Some(ChargingState::Error)
    } else if v == 5 {
        Some(ChargingState::Suspended)
    } else {
        None
    }
}

impl ChargingState {
    /// The number this state is reported as.
    pub open spec fn spec_code(&self) -> u32 {
        match self {
            ChargingState::StartUp => 0,
            ChargingState::NotReady => 1,
            ChargingState::Ready => 2,
            ChargingState::Active => 3,
            ChargingState::Error => 4,
            ChargingState::Suspended => 5,
        }
    }

    /// The state's name, as published on the state topic.
    pub open spec fn spec_name(&self) -> Seq<char> {
        match self {
            ChargingState::StartUp => "StartUp"@,
            ChargingState::NotReady => "NotReady"@,
            ChargingState::Ready => "Ready"@,
            ChargingState::Active => "Active"@,
            ChargingState::Error => "Error"@,
            ChargingState::Suspended => "Suspended"@,
        }
    }

    /// The state a register value stands for; values above 5 stand for
    /// no state.
    pub fn from_u32(v: u32) -> (r: Option<Self>)
        ensures
            r == spec_state_from_u32(v),
    {
        match v {
            0 => Some(ChargingState::StartUp),
            1 => Some(ChargingState::NotReady),
            2 => Some(ChargingState::Ready),
            3 => Some(ChargingState::Active),
            4 => Some(ChargingState::Error),
            5 => Some(ChargingState::Suspended),
            _ => None,
        }
    }

    /// The register value this state is written as.
    pub fn to_u32(&self) -> (r: u32)
        ensures
            r == self.spec_code(),
            spec_state_from_u32(r) == Some(*self),
    {
        match self {
            ChargingState::StartUp => 0,
            ChargingState::NotReady => 1,
            ChargingState::Ready => 2,
            ChargingState::Active => 3,
            ChargingState::Error => 4,
            ChargingState::Suspended => 5,
        }
    }

    /// The state's name, in place of a `Display` implementation.
    pub fn as_str(&self) -> (r: &'static str)
        ensures
            r@ == self.spec_name(),
    {
        match self {
            ChargingState::StartUp => "StartUp",
            ChargingState::NotReady => "NotReady",
            ChargingState::Ready => "Ready",
            ChargingState::Active => "Active",
            ChargingState::Error => "Error",
            ChargingState::Suspended => "Suspended",
        }
    }
}

impl Type for ChargingState {
    open spec fn spec_len() -> u16 {
        2
    }

    open spec fn spec_decode(data: Seq<u16>) -> Option<ChargingState> {
        match u32::spec_decode(data) {
            Some(v) => spec_state_from_u32(v),
            None => None,
        }
    }

    open spec fn spec_encode(&self) -> Seq<u16> {
        self.spec_code().spec_encode()
    }

    fn word_len() -> u16 {
        2
    }

    fn decode(data: &[u16]) -> (r: Option<ChargingState>)
        ensures
            r == Self::spec_decode(data@),
    {
        match u32::decode(data) {
            Some(v) => ChargingState::from_u32(v),
            None => None,
        }
    }

    fn encode(&self) -> (r: Vec<u16>)
        ensures
            r@ == self.spec_encode(),
            r@.len() == Self::spec_len(),
    {
        self.to_u32().encode()
    }
}

// The registers the programs read and write.
/// The station's state register.
pub fn charging_state_register() -> (r: Register<ChargingState>)
    ensures
        r.name@ == "charging_state"@,
        r.addr == 1000,
{
    Register::new("charging_state", 1000)
}

/// The momentary active power, in milliwatts.
pub fn active_power_register() -> (r: Register<u32>)
    ensures
        r.name@ == "active_power"@,
        r.addr == 1020,
{
    Register::new("active_power", 1020)
}

/// The total delivered energy, in tenths of a watt-hour.
pub fn total_energy_register() -> (r: Register<u32>)
    ensures
        r.name@ == "total_energy"@,
        r.addr == 1036,
{
    Register::new("total_energy", 1036)
}

/// The highest charging current the station supports, in milliamperes.
pub fn max_supported_current_register() -> (r: Register<u32>)
    ensures
        r.name@ == "max_supported_current"@,
        r.addr == 1110,
{
    Register::new("max_supported_current", 1110)
}

/// Sets the charging current, in milliamperes.
pub fn set_charging_current_register() -> (r: Register<u16>)
    ensures
        r.name@ == "set_charging_current"@,
        r.addr == 5004,
{
    Register::new("set_charging_current", 5004)
}

/// Enables or disables the charging station.
pub fn enable_charging_station_register() -> (r: Register<u16>)
    ensures
        r.name@ == "enable_charging_station"@,
        r.addr == 5014,
{
    Register::new("enable_charging_station", 5014)
}

/// Decoding the encoded words of a state gives the state back.
pub proof fn lemma_state_roundtrip(s: ChargingState)
    ensures
        ChargingState::spec_decode(s.spec_encode()) == Some(s),
{
    crate::modbus::lemma_u32_roundtrip(s.spec_code());
}

} // verus!
